//! The kernel entry points that a policy can name.
//!
//! Each [`Syscall`] stands for one entry of the x86-64 Linux system call
//! table. A value converts to its ABI number with [`Syscall::number`] and a
//! number converts back with [`Syscall::from_number`] (or `TryFrom<i32>`);
//! numbers that the table does not hold are rejected with
//! [`SeccompError::UnsupportedSyscallID`].

use crate::error::SeccompError;
use vstd::prelude::*;
use vstd::std_specs::convert::TryFromSpecImpl;

verus! {

/// A system call, identified by name.
#[derive(Debug, Clone, Copy, PartialEq, Eq, Hash, Structural)]
pub enum Syscall {
    /// `read()`
    Read,
    /// `write()`
    Write,
    /// `open()`
    Open,
    /// `close()`
    Close,
    /// `stat()`
    Stat,
    /// `fstat()`
    Fstat,
    /// `lstat()`
    Lstat,
    /// `poll()`
    Poll,
    /// `lseek()`
    Lseek,
    /// `mmap()`
    Mmap,
    /// `mprotect()`
    Mprotect,
    /// `munmap()`
    Munmap,
    /// `brk()`
    Brk,
    /// `rt_sigaction()`
    RtSigaction,
    /// `rt_sigprocmask()`
    RtSigprocmask,
    /// `rt_sigreturn()`
    RtSigreturn,
    /// `ioctl()`
    Ioctl,
    /// `pread64()`
    Pread64,
    /// `pwrite64()`
    Pwrite64,
    /// `readv()`
    Readv,
    /// `writev()`
    Writev,
    /// `access()`
    Access,
    /// `pipe()`
    Pipe,
    /// `select()`
    Select,
    /// `sched_yield()`
    SchedYield,
    /// `mremap()`
    Mremap,
    /// `msync()`
    Msync,
    /// `mincore()`
    Mincore,
    /// `madvise()`
    Madvise,
    /// `shmget()`
    Shmget,
    /// `shmat()`
    Shmat,
    /// `shmctl()`
    Shmctl,
    /// `dup()`
    Dup,
    /// `dup2()`
    Dup2,
    /// `pause()`
    Pause,
    /// `nanosleep()`
    Nanosleep,
    /// `getitimer()`
    Getitimer,
    /// `alarm()`
    Alarm,
    /// `setitimer()`
    Setitimer,
    /// `getpid()`
    Getpid,
    /// `sendfile()`
    Sendfile,
    /// `socket()`
    Socket,
    /// `connect()`
    Connect,
    /// `accept()`
    Accept,
    /// `sendto()`
    Sendto,
    /// `recvfrom()`
    Recvfrom,
    /// `sendmsg()`
    Sendmsg,
    /// `recvmsg()`
    Recvmsg,
    /// `shutdown()`
    Shutdown,
    /// `bind()`
    Bind,
    /// `listen()`
    Listen,
    /// `getsockname()`
    Getsockname,
    /// `getpeername()`
    Getpeername,
    /// `socketpair()`
    Socketpair,
    /// `setsockopt()`
    Setsockopt,
    /// `getsockopt()`
    Getsockopt,
    /// `clone()`
    Clone,
    /// `fork()`
    Fork,
    /// `vfork()`
    Vfork,
    /// `execve()`
    Execve,
    /// `exit()`
    Exit,
    /// `wait4()`
    Wait4,
    /// `kill()`
    Kill,
    /// `uname()`
    Uname,
    /// `semget()`
    Semget,
    /// `semop()`
    Semop,
    /// `semctl()`
    Semctl,
    /// `shmdt()`
    Shmdt,
    /// `msgget()`
    Msgget,
    /// `msgsnd()`
    Msgsnd,
    /// `msgrcv()`
    Msgrcv,
    /// `msgctl()`
    Msgctl,
    /// `fcntl()`
    Fcntl,
    /// `flock()`
    Flock,
    /// `fsync()`
    Fsync,
    /// `fdatasync()`
    Fdatasync,
    /// `truncate()`
    Truncate,
    /// `ftruncate()`
    Ftruncate,
    /// `getdents()`
    Getdents,
    /// `getcwd()`
    Getcwd,
    /// `chdir()`
    Chdir,
    /// `fchdir()`
    Fchdir,
    /// `rename()`
    Rename,
    /// `mkdir()`
    Mkdir,
    /// `rmdir()`
    Rmdir,
    /// `creat()`
    Creat,
    /// `link()`
    Link,
    /// `unlink()`
    Unlink,
    /// `symlink()`
    Symlink,
    /// `readlink()`
    Readlink,
    /// `chmod()`
    Chmod,
    /// `fchmod()`
    Fchmod,
    /// `chown()`
    Chown,
    /// `fchown()`
    Fchown,
    /// `lchown()`
    Lchown,
    /// `umask()`
    Umask,
    /// `gettimeofday()`
    Gettimeofday,
    /// `getrlimit()`
    Getrlimit,
    /// `getrusage()`
    Getrusage,
    /// `sysinfo()`
    Sysinfo,
    /// `times()`
    Times,
    /// `ptrace()`
    Ptrace,
    /// `getuid()`
    Getuid,
    /// `syslog()`
    Syslog,
    /// `getgid()`
    Getgid,
    /// `setuid()`
    Setuid,
    /// `setgid()`
    Setgid,
    /// `geteuid()`
    Geteuid,
    /// `getegid()`
    Getegid,
    /// `setpgid()`
    Setpgid,
    /// `getppid()`
    Getppid,
    /// `getpgrp()`
    Getpgrp,
    /// `setsid()`
    Setsid,
    /// `setreuid()`
    Setreuid,
    /// `setregid()`
    Setregid,
    /// `getgroups()`
    Getgroups,
    /// `setgroups()`
    Setgroups,
    /// `setresuid()`
    Setresuid,
    /// `getresuid()`
    Getresuid,
    /// `setresgid()`
    Setresgid,
    /// `getresgid()`
    Getresgid,
    /// `getpgid()`
    Getpgid,
    /// `setfsuid()`
    Setfsuid,
    /// `setfsgid()`
    Setfsgid,
    /// `getsid()`
    Getsid,
    /// `capget()`
    Capget,
    /// `capset()`
    Capset,
    /// `rt_sigpending()`
    RtSigpending,
    /// `rt_sigtimedwait()`
    RtSigtimedwait,
    /// `rt_sigqueueinfo()`
    RtSigqueueinfo,
    /// `rt_sigsuspend()`
    RtSigsuspend,
    /// `sigaltstack()`
    Sigaltstack,
    /// `utime()`
    Utime,
    /// `mknod()`
    Mknod,
    /// `uselib()`
    Uselib,
    /// `personality()`
    Personality,
    /// `ustat()`
    Ustat,
    /// `statfs()`
    Statfs,
    /// `fstatfs()`
    Fstatfs,
    /// `sysfs()`
    Sysfs,
    /// `getpriority()`
    Getpriority,
    /// `setpriority()`
    Setpriority,
    /// `sched_setparam()`
    SchedSetparam,
    /// `sched_getparam()`
    SchedGetparam,
    /// `sched_setscheduler()`
    SchedSetscheduler,
    /// `sched_getscheduler()`
    SchedGetscheduler,
    /// `sched_get_priority_max()`
    SchedGetPriorityMax,
    /// `sched_get_priority_min()`
    SchedGetPriorityMin,
    /// `sched_rr_get_interval()`
    SchedRrGetInterval,
    /// `mlock()`
    Mlock,
    /// `munlock()`
    Munlock,
    /// `mlockall()`
    Mlockall,
    /// `munlockall()`
    Munlockall,
    /// `vhangup()`
    Vhangup,
    /// `modify_ldt()`
    ModifyLdt,
    /// `pivot_root()`
    PivotRoot,
    /// `_sysctl()`
    Sysctl,
    /// `prctl()`
    Prctl,
    /// `arch_prctl()`
    ArchPrctl,
    /// `adjtimex()`
    Adjtimex,
    /// `setrlimit()`
    Setrlimit,
    /// `chroot()`
    Chroot,
    /// `sync()`
    Sync,
    /// `acct()`
    Acct,
    /// `settimeofday()`
    Settimeofday,
    /// `mount()`
    Mount,
    /// `umount2()`
    Umount2,
    /// `swapon()`
    Swapon,
    /// `swapoff()`
    Swapoff,
    /// `reboot()`
    Reboot,
    /// `sethostname()`
    Sethostname,
    /// `setdomainname()`
    Setdomainname,
    /// `iopl()`
    Iopl,
    /// `ioperm()`
    Ioperm,
    /// `create_module()`
    CreateModule,
    /// `init_module()`
    InitModule,
    /// `delete_module()`
    DeleteModule,
    /// `get_kernel_syms()`
    GetKernelSyms,
    /// `query_module()`
    QueryModule,
    /// `quotactl()`
    Quotactl,
    /// `nfsservctl()`
    Nfsservctl,
    /// `getpmsg()`
    Getpmsg,
    /// `putpmsg()`
    Putpmsg,
    /// `afs_syscall()`
    AfsSyscall,
    /// `tuxcall()`
    Tuxcall,
    /// `security()`
    Security,
    /// `gettid()`
    Gettid,
    /// `readahead()`
    Readahead,
    /// `setxattr()`
    Setxattr,
    /// `lsetxattr()`
    Lsetxattr,
    /// `fsetxattr()`
    Fsetxattr,
    /// `getxattr()`
    Getxattr,
    /// `lgetxattr()`
    Lgetxattr,
    /// `fgetxattr()`
    Fgetxattr,
    /// `listxattr()`
    Listxattr,
    /// `llistxattr()`
    Llistxattr,
    /// `flistxattr()`
    Flistxattr,
    /// `removexattr()`
    Removexattr,
    /// `lremovexattr()`
    Lremovexattr,
    /// `fremovexattr()`
    Fremovexattr,
    /// `tkill()`
    Tkill,
    /// `time()`
    Time,
    /// `futex()`
    Futex,
    /// `sched_setaffinity()`
    SchedSetaffinity,
    /// `sched_getaffinity()`
    SchedGetaffinity,
    /// `set_thread_area()`
    SetThreadArea,
    /// `io_setup()`
    IoSetup,
    /// `io_destroy()`
    IoDestroy,
    /// `io_getevents()`
    IoGetevents,
    /// `io_submit()`
    IoSubmit,
    /// `io_cancel()`
    IoCancel,
    /// `get_thread_area()`
    GetThreadArea,
    /// `lookup_dcookie()`
    LookupDcookie,
    /// `epoll_create()`
    EpollCreate,
    /// `epoll_ctl_old()`
    EpollCtlOld,
    /// `epoll_wait_old()`
    EpollWaitOld,
    /// `remap_file_pages()`
    RemapFilePages,
    /// `getdents64()`
    Getdents64,
    /// `set_tid_address()`
    SetTidAddress,
    /// `restart_syscall()`
    RestartSyscall,
    /// `semtimedop()`
    Semtimedop,
    /// `fadvise64()`
    Fadvise64,
    /// `timer_create()`
    TimerCreate,
    /// `timer_settime()`
    TimerSettime,
    /// `timer_gettime()`
    TimerGettime,
    /// `timer_getoverrun()`
    TimerGetoverrun,
    /// `timer_delete()`
    TimerDelete,
    /// `clock_settime()`
    ClockSettime,
    /// `clock_gettime()`
    ClockGettime,
    /// `clock_getres()`
    ClockGetres,
    /// `clock_nanosleep()`
    ClockNanosleep,
    /// `exit_group()`
    ExitGroup,
    /// `epoll_wait()`
    EpollWait,
    /// `epoll_ctl()`
    EpollCtl,
    /// `tgkill()`
    Tgkill,
    /// `utimes()`
    Utimes,
    /// `vserver()`
    Vserver,
    /// `mbind()`
    Mbind,
    /// `set_mempolicy()`
    SetMempolicy,
    /// `get_mempolicy()`
    GetMempolicy,
    /// `mq_open()`
    MqOpen,
    /// `mq_unlink()`
    MqUnlink,
    /// `mq_timedsend()`
    MqTimedsend,
    /// `mq_timedreceive()`
    MqTimedreceive,
    /// `mq_notify()`
    MqNotify,
    /// `mq_getsetattr()`
    MqGetsetattr,
    /// `kexec_load()`
    KexecLoad,
    /// `waitid()`
    Waitid,
    /// `add_key()`
    AddKey,
    /// `request_key()`
    RequestKey,
    /// `keyctl()`
    Keyctl,
    /// `ioprio_set()`
    IoprioSet,
    /// `ioprio_get()`
    IoprioGet,
    /// `inotify_init()`
    InotifyInit,
    /// `inotify_add_watch()`
    InotifyAddWatch,
    /// `inotify_rm_watch()`
    InotifyRmWatch,
    /// `migrate_pages()`
    MigratePages,
    /// `openat()`
    Openat,
    /// `mkdirat()`
    Mkdirat,
    /// `mknodat()`
    Mknodat,
    /// `fchownat()`
    Fchownat,
    /// `futimesat()`
    Futimesat,
    /// `newfstatat()`
    Newfstatat,
    /// `unlinkat()`
    Unlinkat,
    /// `renameat()`
    Renameat,
    /// `linkat()`
    Linkat,
    /// `symlinkat()`
    Symlinkat,
    /// `readlinkat()`
    Readlinkat,
    /// `fchmodat()`
    Fchmodat,
    /// `faccessat()`
    Faccessat,
    /// `pselect6()`
    Pselect6,
    /// `ppoll()`
    Ppoll,
    /// `unshare()`
    Unshare,
    /// `set_robust_list()`
    SetRobustList,
    /// `get_robust_list()`
    GetRobustList,
    /// `splice()`
    Splice,
    /// `tee()`
    Tee,
    /// `sync_file_range()`
    SyncFileRange,
    /// `vmsplice()`
    Vmsplice,
    /// `move_pages()`
    MovePages,
    /// `utimensat()`
    Utimensat,
    /// `epoll_pwait()`
    EpollPwait,
    /// `signalfd()`
    Signalfd,
    /// `timerfd_create()`
    TimerfdCreate,
    /// `eventfd()`
    Eventfd,
    /// `fallocate()`
    Fallocate,
    /// `timerfd_settime()`
    TimerfdSettime,
    /// `timerfd_gettime()`
    TimerfdGettime,
    /// `accept4()`
    Accept4,
    /// `signalfd4()`
    Signalfd4,
    /// `eventfd2()`
    Eventfd2,
    /// `epoll_create1()`
    EpollCreate1,
    /// `dup3()`
    Dup3,
    /// `pipe2()`
    Pipe2,
    /// `inotify_init1()`
    InotifyInit1,
    /// `preadv()`
    Preadv,
    /// `pwritev()`
    Pwritev,
    /// `rt_tgsigqueueinfo()`
    RtTgsigqueueinfo,
    /// `perf_event_open()`
    PerfEventOpen,
    /// `recvmmsg()`
    Recvmmsg,
    /// `fanotify_init()`
    FanotifyInit,
    /// `fanotify_mark()`
    FanotifyMark,
    /// `prlimit64()`
    Prlimit64,
    /// `name_to_handle_at()`
    NameToHandleAt,
    /// `open_by_handle_at()`
    OpenByHandleAt,
    /// `clock_adjtime()`
    ClockAdjtime,
    /// `syncfs()`
    Syncfs,
    /// `sendmmsg()`
    Sendmmsg,
    /// `setns()`
    Setns,
    /// `getcpu()`
    Getcpu,
    /// `process_vm_readv()`
    ProcessVmReadv,
    /// `process_vm_writev()`
    ProcessVmWritev,
    /// `kcmp()`
    Kcmp,
    /// `finit_module()`
    FinitModule,
    /// `sched_setattr()`
    SchedSetattr,
    /// `sched_getattr()`
    SchedGetattr,
    /// `renameat2()`
    Renameat2,
    /// `seccomp()`
    Seccomp,
    /// `getrandom()`
    Getrandom,
    /// `memfd_create()`
    MemfdCreate,
    /// `kexec_file_load()`
    KexecFileLoad,
    /// `bpf()`
    Bpf,
    /// `execveat()`
    Execveat,
    /// `userfaultfd()`
    Userfaultfd,
    /// `membarrier()`
    Membarrier,
    /// `mlock2()`
    Mlock2,
    /// `copy_file_range()`
    CopyFileRange,
    /// `preadv2()`
    Preadv2,
    /// `pwritev2()`
    Pwritev2,
    /// `pkey_mprotect()`
    PkeyMprotect,
    /// `pkey_alloc()`
    PkeyAlloc,
    /// `pkey_free()`
    PkeyFree,
    /// `statx()`
    Statx,
    /// `io_pgetevents()`
    IoPgetevents,
    /// `rseq()`
    Rseq,
    /// `pidfd_send_signal()`
    PidfdSendSignal,
    /// `io_uring_setup()`
    IoUringSetup,
    /// `io_uring_enter()`
    IoUringEnter,
    /// `io_uring_register()`
    IoUringRegister,
    /// `open_tree()`
    OpenTree,
    /// `move_mount()`
    MoveMount,
    /// `fsopen()`
    Fsopen,
    /// `fsconfig()`
    Fsconfig,
    /// `fsmount()`
    Fsmount,
    /// `fspick()`
    Fspick,
    /// `pidfd_open()`
    PidfdOpen,
    /// `clone3()`
    Clone3,
}

impl Syscall {
    /// Whether `n` is the ABI number of some system call of the table.
    ///
    /// The table is dense from 0 to 334 and from 424 to 435.
    pub open spec fn is_known(n: i32) -> bool {
        0 <= n <= 334 || 424 <= n <= 435
    }

    /// The ABI number of this system call.
    pub open spec fn spec_number(self) -> i32 {
        match self {
            Syscall::Read => 0,
            Syscall::Write => 1,
            Syscall::Open => 2,
            Syscall::Close => 3,
            Syscall::Stat => 4,
            Syscall::Fstat => 5,
            Syscall::Lstat => 6,
            Syscall::Poll => 7,
            Syscall::Lseek => 8,
            Syscall::Mmap => 9,
            Syscall::Mprotect => 10,
            Syscall::Munmap => 11,
            Syscall::Brk => 12,
            Syscall::RtSigaction => 13,
            Syscall::RtSigprocmask => 14,
            Syscall::RtSigreturn => 15,
            Syscall::Ioctl => 16,
            Syscall::Pread64 => 17,
            Syscall::Pwrite64 => 18,
            Syscall::Readv => 19,
            Syscall::Writev => 20,
            Syscall::Access => 21,
            Syscall::Pipe => 22,
            Syscall::Select => 23,
            Syscall::SchedYield => 24,
            Syscall::Mremap => 25,
            Syscall::Msync => 26,
            Syscall::Mincore => 27,
            Syscall::Madvise => 28,
            Syscall::Shmget => 29,
            Syscall::Shmat => 30,
            Syscall::Shmctl => 31,
            Syscall::Dup => 32,
            Syscall::Dup2 => 33,
            Syscall::Pause => 34,
            Syscall::Nanosleep => 35,
            Syscall::Getitimer => 36,
            Syscall::Alarm => 37,
            Syscall::Setitimer => 38,
            Syscall::Getpid => 39,
            Syscall::Sendfile => 40,
            Syscall::Socket => 41,
            Syscall::Connect => 42,
            Syscall::Accept => 43,
            Syscall::Sendto => 44,
            Syscall::Recvfrom => 45,
            Syscall::Sendmsg => 46,
            Syscall::Recvmsg => 47,
            Syscall::Shutdown => 48,
            Syscall::Bind => 49,
            Syscall::Listen => 50,
            Syscall::Getsockname => 51,
            Syscall::Getpeername => 52,
            Syscall::Socketpair => 53,
            Syscall::Setsockopt => 54,
            Syscall::Getsockopt => 55,
            Syscall::Clone => 56,
            Syscall::Fork => 57,
            Syscall::Vfork => 58,
            Syscall::Execve => 59,
            Syscall::Exit => 60,
            Syscall::Wait4 => 61,
            Syscall::Kill => 62,
            Syscall::Uname => 63,
            Syscall::Semget => 64,
            Syscall::Semop => 65,
            Syscall::Semctl => 66,
            Syscall::Shmdt => 67,
            Syscall::Msgget => 68,
            Syscall::Msgsnd => 69,
            Syscall::Msgrcv => 70,
            Syscall::Msgctl => 71,
            Syscall::Fcntl => 72,
            Syscall::Flock => 73,
            Syscall::Fsync => 74,
            Syscall::Fdatasync => 75,
            Syscall::Truncate => 76,
            Syscall::Ftruncate => 77,
            Syscall::Getdents => 78,
            Syscall::Getcwd => 79,
            Syscall::Chdir => 80,
            Syscall::Fchdir => 81,
            Syscall::Rename => 82,
            Syscall::Mkdir => 83,
            Syscall::Rmdir => 84,
            Syscall::Creat => 85,
            Syscall::Link => 86,
            Syscall::Unlink => 87,
            Syscall::Symlink => 88,
            Syscall::Readlink => 89,
            Syscall::Chmod => 90,
            Syscall::Fchmod => 91,
            Syscall::Chown => 92,
            Syscall::Fchown => 93,
            Syscall::Lchown => 94,
            Syscall::Umask => 95,
            Syscall::Gettimeofday => 96,
            Syscall::Getrlimit => 97,
            Syscall::Getrusage => 98,
            Syscall::Sysinfo => 99,
            Syscall::Times => 100,
            Syscall::Ptrace => 101,
            Syscall::Getuid => 102,
            Syscall::Syslog => 103,
            Syscall::Getgid => 104,
            Syscall::Setuid => 105,
            Syscall::Setgid => 106,
            Syscall::Geteuid => 107,
            Syscall::Getegid => 108,
            Syscall::Setpgid => 109,
            Syscall::Getppid => 110,
            Syscall::Getpgrp => 111,
            Syscall::Setsid => 112,
            Syscall::Setreuid => 113,
            Syscall::Setregid => 114,
            Syscall::Getgroups => 115,
            Syscall::Setgroups => 116,
            Syscall::Setresuid => 117,
            Syscall::Getresuid => 118,
            Syscall::Setresgid => 119,
            Syscall::Getresgid => 120,
            Syscall::Getpgid => 121,
            Syscall::Setfsuid => 122,
            Syscall::Setfsgid => 123,
            Syscall::Getsid => 124,
            Syscall::Capget => 125,
            Syscall::Capset => 126,
            Syscall::RtSigpending => 127,
            Syscall::RtSigtimedwait => 128,
            Syscall::RtSigqueueinfo => 129,
            Syscall::RtSigsuspend => 130,
            Syscall::Sigaltstack => 131,
            Syscall::Utime => 132,
            Syscall::Mknod => 133,
            Syscall::Uselib => 134,
            Syscall::Personality => 135,
            Syscall::Ustat => 136,
            Syscall::Statfs => 137,
            Syscall::Fstatfs => 138,
            Syscall::Sysfs => 139,
            Syscall::Getpriority => 140,
            Syscall::Setpriority => 141,
            Syscall::SchedSetparam => 142,
            Syscall::SchedGetparam => 143,
            Syscall::SchedSetscheduler => 144,
            Syscall::SchedGetscheduler => 145,
            Syscall::SchedGetPriorityMax => 146,
            Syscall::SchedGetPriorityMin => 147,
            Syscall::SchedRrGetInterval => 148,
            Syscall::Mlock => 149,
            Syscall::Munlock => 150,
            Syscall::Mlockall => 151,
            Syscall::Munlockall => 152,
            Syscall::Vhangup => 153,
            Syscall::ModifyLdt => 154,
            Syscall::PivotRoot => 155,
            Syscall::Sysctl => 156,
            Syscall::Prctl => 157,
            Syscall::ArchPrctl => 158,
            Syscall::Adjtimex => 159,
            Syscall::Setrlimit => 160,
            Syscall::Chroot => 161,
            Syscall::Sync => 162,
            Syscall::Acct => 163,
            Syscall::Settimeofday => 164,
            Syscall::Mount => 165,
            Syscall::Umount2 => 166,
            Syscall::Swapon => 167,
            Syscall::Swapoff => 168,
            Syscall::Reboot => 169,
            Syscall::Sethostname => 170,
            Syscall::Setdomainname => 171,
            Syscall::Iopl => 172,
            Syscall::Ioperm => 173,
            Syscall::CreateModule => 174,
            Syscall::InitModule => 175,
            Syscall::DeleteModule => 176,
            Syscall::GetKernelSyms => 177,
            Syscall::QueryModule => 178,
            Syscall::Quotactl => 179,
            Syscall::Nfsservctl => 180,
            Syscall::Getpmsg => 181,
            Syscall::Putpmsg => 182,
            Syscall::AfsSyscall => 183,
            Syscall::Tuxcall => 184,
            Syscall::Security => 185,
            Syscall::Gettid => 186,
            Syscall::Readahead => 187,
            Syscall::Setxattr => 188,
            Syscall::Lsetxattr => 189,
            Syscall::Fsetxattr => 190,
            Syscall::Getxattr => 191,
            Syscall::Lgetxattr => 192,
            Syscall::Fgetxattr => 193,
            Syscall::Listxattr => 194,
            Syscall::Llistxattr => 195,
            Syscall::Flistxattr => 196,
            Syscall::Removexattr => 197,
            Syscall::Lremovexattr => 198,
            Syscall::Fremovexattr => 199,
            Syscall::Tkill => 200,
            Syscall::Time => 201,
            Syscall::Futex => 202,
            Syscall::SchedSetaffinity => 203,
            Syscall::SchedGetaffinity => 204,
            Syscall::SetThreadArea => 205,
            Syscall::IoSetup => 206,
            Syscall::IoDestroy => 207,
            Syscall::IoGetevents => 208,
            Syscall::IoSubmit => 209,
            Syscall::IoCancel => 210,
            Syscall::GetThreadArea => 211,
            Syscall::LookupDcookie => 212,
            Syscall::EpollCreate => 213,
            Syscall::EpollCtlOld => 214,
            Syscall::EpollWaitOld => 215,
            Syscall::RemapFilePages => 216,
            Syscall::Getdents64 => 217,
            Syscall::SetTidAddress => 218,
            Syscall::RestartSyscall => 219,
            Syscall::Semtimedop => 220,
            Syscall::Fadvise64 => 221,
            Syscall::TimerCreate => 222,
            Syscall::TimerSettime => 223,
            Syscall::TimerGettime => 224,
            Syscall::TimerGetoverrun => 225,
            Syscall::TimerDelete => 226,
            Syscall::ClockSettime => 227,
            Syscall::ClockGettime => 228,
            Syscall::ClockGetres => 229,
            Syscall::ClockNanosleep => 230,
            Syscall::ExitGroup => 231,
            Syscall::EpollWait => 232,
            Syscall::EpollCtl => 233,
            Syscall::Tgkill => 234,
            Syscall::Utimes => 235,
            Syscall::Vserver => 236,
            Syscall::Mbind => 237,
            Syscall::SetMempolicy => 238,
            Syscall::GetMempolicy => 239,
            Syscall::MqOpen => 240,
            Syscall::MqUnlink => 241,
            Syscall::MqTimedsend => 242,
            Syscall::MqTimedreceive => 243,
            Syscall::MqNotify => 244,
            Syscall::MqGetsetattr => 245,
            Syscall::KexecLoad => 246,
            Syscall::Waitid => 247,
            Syscall::AddKey => 248,
            Syscall::RequestKey => 249,
            Syscall::Keyctl => 250,
            Syscall::IoprioSet => 251,
            Syscall::IoprioGet => 252,
            Syscall::InotifyInit => 253,
            Syscall::InotifyAddWatch => 254,
            Syscall::InotifyRmWatch => 255,
            Syscall::MigratePages => 256,
            Syscall::Openat => 257,
            Syscall::Mkdirat => 258,
            Syscall::Mknodat => 259,
            Syscall::Fchownat => 260,
            Syscall::Futimesat => 261,
            Syscall::Newfstatat => 262,
            Syscall::Unlinkat => 263,
            Syscall::Renameat => 264,
            Syscall::Linkat => 265,
            Syscall::Symlinkat => 266,
            Syscall::Readlinkat => 267,
            Syscall::Fchmodat => 268,
            Syscall::Faccessat => 269,
            Syscall::Pselect6 => 270,
            Syscall::Ppoll => 271,
            Syscall::Unshare => 272,
            Syscall::SetRobustList => 273,
            Syscall::GetRobustList => 274,
            Syscall::Splice => 275,
            Syscall::Tee => 276,
            Syscall::SyncFileRange => 277,
            Syscall::Vmsplice => 278,
            Syscall::MovePages => 279,
            Syscall::Utimensat => 280,
            Syscall::EpollPwait => 281,
            Syscall::Signalfd => 282,
            Syscall::TimerfdCreate => 283,
            Syscall::Eventfd => 284,
            Syscall::Fallocate => 285,
            Syscall::TimerfdSettime => 286,
            Syscall::TimerfdGettime => 287,
            Syscall::Accept4 => 288,
            Syscall::Signalfd4 => 289,
            Syscall::Eventfd2 => 290,
            Syscall::EpollCreate1 => 291,
            Syscall::Dup3 => 292,
            Syscall::Pipe2 => 293,
            Syscall::InotifyInit1 => 294,
            Syscall::Preadv => 295,
            Syscall::Pwritev => 296,
            Syscall::RtTgsigqueueinfo => 297,
            Syscall::PerfEventOpen => 298,
            Syscall::Recvmmsg => 299,
            Syscall::FanotifyInit => 300,
            Syscall::FanotifyMark => 301,
            Syscall::Prlimit64 => 302,
            Syscall::NameToHandleAt => 303,
            Syscall::OpenByHandleAt => 304,
            Syscall::ClockAdjtime => 305,
            Syscall::Syncfs => 306,
            Syscall::Sendmmsg => 307,
            Syscall::Setns => 308,
            Syscall::Getcpu => 309,
            Syscall::ProcessVmReadv => 310,
            Syscall::ProcessVmWritev => 311,
            Syscall::Kcmp => 312,
            Syscall::FinitModule => 313,
            Syscall::SchedSetattr => 314,
            Syscall::SchedGetattr => 315,
            Syscall::Renameat2 => 316,
            Syscall::Seccomp => 317,
            Syscall::Getrandom => 318,
            Syscall::MemfdCreate => 319,
            Syscall::KexecFileLoad => 320,
            Syscall::Bpf => 321,
            Syscall::Execveat => 322,
            Syscall::Userfaultfd => 323,
            Syscall::Membarrier => 324,
            Syscall::Mlock2 => 325,
            Syscall::CopyFileRange => 326,
            Syscall::Preadv2 => 327,
            Syscall::Pwritev2 => 328,
            Syscall::PkeyMprotect => 329,
            Syscall::PkeyAlloc => 330,
            Syscall::PkeyFree => 331,
            Syscall::Statx => 332,
            Syscall::IoPgetevents => 333,
            Syscall::Rseq => 334,
            Syscall::PidfdSendSignal => 424,
            Syscall::IoUringSetup => 425,
            Syscall::IoUringEnter => 426,
            Syscall::IoUringRegister => 427,
            Syscall::OpenTree => 428,
            Syscall::MoveMount => 429,
            Syscall::Fsopen => 430,
            Syscall::Fsconfig => 431,
            Syscall::Fsmount => 432,
            Syscall::Fspick => 433,
            Syscall::PidfdOpen => 434,
            Syscall::Clone3 => 435,
        }
    }

    /// The kernel's name for this system call, in lower case.
    pub open spec fn spec_name(self) -> Seq<char> {
        match self {
            Syscall::Read => "read"@,
            Syscall::Write => "write"@,
            Syscall::Open => "open"@,
            Syscall::Close => "close"@,
            Syscall::Stat => "stat"@,
            Syscall::Fstat => "fstat"@,
            Syscall::Lstat => "lstat"@,
            Syscall::Poll => "poll"@,
            Syscall::Lseek => "lseek"@,
            Syscall::Mmap => "mmap"@,
            Syscall::Mprotect => "mprotect"@,
            Syscall::Munmap => "munmap"@,
            Syscall::Brk => "brk"@,
            Syscall::RtSigaction => "rt_sigaction"@,
            Syscall::RtSigprocmask => "rt_sigprocmask"@,
            Syscall::RtSigreturn => "rt_sigreturn"@,
            Syscall::Ioctl => "ioctl"@,
            Syscall::Pread64 => "pread64"@,
            Syscall::Pwrite64 => "pwrite64"@,
            Syscall::Readv => "readv"@,
            Syscall::Writev => "writev"@,
            Syscall::Access => "access"@,
            Syscall::Pipe => "pipe"@,
            Syscall::Select => "select"@,
            Syscall::SchedYield => "sched_yield"@,
            Syscall::Mremap => "mremap"@,
            Syscall::Msync => "msync"@,
            Syscall::Mincore => "mincore"@,
            Syscall::Madvise => "madvise"@,
            Syscall::Shmget => "shmget"@,
            Syscall::Shmat => "shmat"@,
            Syscall::Shmctl => "shmctl"@,
            Syscall::Dup => "dup"@,
            Syscall::Dup2 => "dup2"@,
            Syscall::Pause => "pause"@,
            Syscall::Nanosleep => "nanosleep"@,
            Syscall::Getitimer => "getitimer"@,
            Syscall::Alarm => "alarm"@,
            Syscall::Setitimer => "setitimer"@,
            Syscall::Getpid => "getpid"@,
            Syscall::Sendfile => "sendfile"@,
            Syscall::Socket => "socket"@,
            Syscall::Connect => "connect"@,
            Syscall::Accept => "accept"@,
            Syscall::Sendto => "sendto"@,
            Syscall::Recvfrom => "recvfrom"@,
            Syscall::Sendmsg => "sendmsg"@,
            Syscall::Recvmsg => "recvmsg"@,
            Syscall::Shutdown => "shutdown"@,
            Syscall::Bind => "bind"@,
            Syscall::Listen => "listen"@,
            Syscall::Getsockname => "getsockname"@,
            Syscall::Getpeername => "getpeername"@,
            Syscall::Socketpair => "socketpair"@,
            Syscall::Setsockopt => "setsockopt"@,
            Syscall::Getsockopt => "getsockopt"@,
            Syscall::Clone => "clone"@,
            Syscall::Fork => "fork"@,
            Syscall::Vfork => "vfork"@,
            Syscall::Execve => "execve"@,
            Syscall::Exit => "exit"@,
            Syscall::Wait4 => "wait4"@,
            Syscall::Kill => "kill"@,
            Syscall::Uname => "uname"@,
            Syscall::Semget => "semget"@,
            Syscall::Semop => "semop"@,
            Syscall::Semctl => "semctl"@,
            Syscall::Shmdt => "shmdt"@,
            Syscall::Msgget => "msgget"@,
            Syscall::Msgsnd => "msgsnd"@,
            Syscall::Msgrcv => "msgrcv"@,
            Syscall::Msgctl => "msgctl"@,
            Syscall::Fcntl => "fcntl"@,
            Syscall::Flock => "flock"@,
            Syscall::Fsync => "fsync"@,
            Syscall::Fdatasync => "fdatasync"@,
            Syscall::Truncate => "truncate"@,
            Syscall::Ftruncate => "ftruncate"@,
            Syscall::Getdents => "getdents"@,
            Syscall::Getcwd => "getcwd"@,
            Syscall::Chdir => "chdir"@,
            Syscall::Fchdir => "fchdir"@,
            Syscall::Rename => "rename"@,
            Syscall::Mkdir => "mkdir"@,
            Syscall::Rmdir => "rmdir"@,
            Syscall::Creat => "creat"@,
            Syscall::Link => "link"@,
            Syscall::Unlink => "unlink"@,
            Syscall::Symlink => "symlink"@,
            Syscall::Readlink => "readlink"@,
            Syscall::Chmod => "chmod"@,
            Syscall::Fchmod => "fchmod"@,
            Syscall::Chown => "chown"@,
            Syscall::Fchown => "fchown"@,
            Syscall::Lchown => "lchown"@,
            Syscall::Umask => "umask"@,
            Syscall::Gettimeofday => "gettimeofday"@,
            Syscall::Getrlimit => "getrlimit"@,
            Syscall::Getrusage => "getrusage"@,
            Syscall::Sysinfo => "sysinfo"@,
            Syscall::Times => "times"@,
            Syscall::Ptrace => "ptrace"@,
            Syscall::Getuid => "getuid"@,
            Syscall::Syslog => "syslog"@,
            Syscall::Getgid => "getgid"@,
            Syscall::Setuid => "setuid"@,
            Syscall::Setgid => "setgid"@,
            Syscall::Geteuid => "geteuid"@,
            Syscall::Getegid => "getegid"@,
            Syscall::Setpgid => "setpgid"@,
            Syscall::Getppid => "getppid"@,
            Syscall::Getpgrp => "getpgrp"@,
            Syscall::Setsid => "setsid"@,
            Syscall::Setreuid => "setreuid"@,
            Syscall::Setregid => "setregid"@,
            Syscall::Getgroups => "getgroups"@,
            Syscall::Setgroups => "setgroups"@,
            Syscall::Setresuid => "setresuid"@,
            Syscall::Getresuid => "getresuid"@,
            Syscall::Setresgid => "setresgid"@,
            Syscall::Getresgid => "getresgid"@,
            Syscall::Getpgid => "getpgid"@,
            Syscall::Setfsuid => "setfsuid"@,
            Syscall::Setfsgid => "setfsgid"@,
            Syscall::Getsid => "getsid"@,
            Syscall::Capget => "capget"@,
            Syscall::Capset => "capset"@,
            Syscall::RtSigpending => "rt_sigpending"@,
            Syscall::RtSigtimedwait => "rt_sigtimedwait"@,
            Syscall::RtSigqueueinfo => "rt_sigqueueinfo"@,
            Syscall::RtSigsuspend => "rt_sigsuspend"@,
            Syscall::Sigaltstack => "sigaltstack"@,
            Syscall::Utime => "utime"@,
            Syscall::Mknod => "mknod"@,
            Syscall::Uselib => "uselib"@,
            Syscall::Personality => "personality"@,
            Syscall::Ustat => "ustat"@,
            Syscall::Statfs => "statfs"@,
            Syscall::Fstatfs => "fstatfs"@,
            Syscall::Sysfs => "sysfs"@,
            Syscall::Getpriority => "getpriority"@,
            Syscall::Setpriority => "setpriority"@,
            Syscall::SchedSetparam => "sched_setparam"@,
            Syscall::SchedGetparam => "sched_getparam"@,
            Syscall::SchedSetscheduler => "sched_setscheduler"@,
            Syscall::SchedGetscheduler => "sched_getscheduler"@,
            Syscall::SchedGetPriorityMax => "sched_get_priority_max"@,
            Syscall::SchedGetPriorityMin => "sched_get_priority_min"@,
            Syscall::SchedRrGetInterval => "sched_rr_get_interval"@,
            Syscall::Mlock => "mlock"@,
            Syscall::Munlock => "munlock"@,
            Syscall::Mlockall => "mlockall"@,
            Syscall::Munlockall => "munlockall"@,
            Syscall::Vhangup => "vhangup"@,
            Syscall::ModifyLdt => "modify_ldt"@,
            Syscall::PivotRoot => "pivot_root"@,
            Syscall::Sysctl => "_sysctl"@,
            Syscall::Prctl => "prctl"@,
            Syscall::ArchPrctl => "arch_prctl"@,
            Syscall::Adjtimex => "adjtimex"@,
            Syscall::Setrlimit => "setrlimit"@,
            Syscall::Chroot => "chroot"@,
            Syscall::Sync => "sync"@,
            Syscall::Acct => "acct"@,
            Syscall::Settimeofday => "settimeofday"@,
            Syscall::Mount => "mount"@,
            Syscall::Umount2 => "umount2"@,
            Syscall::Swapon => "swapon"@,
            Syscall::Swapoff => "swapoff"@,
            Syscall::Reboot => "reboot"@,
            Syscall::Sethostname => "sethostname"@,
            Syscall::Setdomainname => "setdomainname"@,
            Syscall::Iopl => "iopl"@,
            Syscall::Ioperm => "ioperm"@,
            Syscall::CreateModule => "create_module"@,
            Syscall::InitModule => "init_module"@,
            Syscall::DeleteModule => "delete_module"@,
            Syscall::GetKernelSyms => "get_kernel_syms"@,
            Syscall::QueryModule => "query_module"@,
            Syscall::Quotactl => "quotactl"@,
            Syscall::Nfsservctl => "nfsservctl"@,
            Syscall::Getpmsg => "getpmsg"@,
            Syscall::Putpmsg => "putpmsg"@,
            Syscall::AfsSyscall => "afs_syscall"@,
            Syscall::Tuxcall => "tuxcall"@,
            Syscall::Security => "security"@,
            Syscall::Gettid => "gettid"@,
            Syscall::Readahead => "readahead"@,
            Syscall::Setxattr => "setxattr"@,
            Syscall::Lsetxattr => "lsetxattr"@,
            Syscall::Fsetxattr => "fsetxattr"@,
            Syscall::Getxattr => "getxattr"@,
            Syscall::Lgetxattr => "lgetxattr"@,
            Syscall::Fgetxattr => "fgetxattr"@,
            Syscall::Listxattr => "listxattr"@,
            Syscall::Llistxattr => "llistxattr"@,
            Syscall::Flistxattr => "flistxattr"@,
            Syscall::Removexattr => "removexattr"@,
            Syscall::Lremovexattr => "lremovexattr"@,
            Syscall::Fremovexattr => "fremovexattr"@,
            Syscall::Tkill => "tkill"@,
            Syscall::Time => "time"@,
            Syscall::Futex => "futex"@,
            Syscall::SchedSetaffinity => "sched_setaffinity"@,
            Syscall::SchedGetaffinity => "sched_getaffinity"@,
            Syscall::SetThreadArea => "set_thread_area"@,
            Syscall::IoSetup => "io_setup"@,
            Syscall::IoDestroy => "io_destroy"@,
            Syscall::IoGetevents => "io_getevents"@,
            Syscall::IoSubmit => "io_submit"@,
            Syscall::IoCancel => "io_cancel"@,
            Syscall::GetThreadArea => "get_thread_area"@,
            Syscall::LookupDcookie => "lookup_dcookie"@,
            Syscall::EpollCreate => "epoll_create"@,
            Syscall::EpollCtlOld => "epoll_ctl_old"@,
            Syscall::EpollWaitOld => "epoll_wait_old"@,
            Syscall::RemapFilePages => "remap_file_pages"@,
            Syscall::Getdents64 => "getdents64"@,
            Syscall::SetTidAddress => "set_tid_address"@,
            Syscall::RestartSyscall => "restart_syscall"@,
            Syscall::Semtimedop => "semtimedop"@,
            Syscall::Fadvise64 => "fadvise64"@,
            Syscall::TimerCreate => "timer_create"@,
            Syscall::TimerSettime => "timer_settime"@,
            Syscall::TimerGettime => "timer_gettime"@,
            Syscall::TimerGetoverrun => "timer_getoverrun"@,
            Syscall::TimerDelete => "timer_delete"@,
            Syscall::ClockSettime => "clock_settime"@,
            Syscall::ClockGettime => "clock_gettime"@,
            Syscall::ClockGetres => "clock_getres"@,
            Syscall::ClockNanosleep => "clock_nanosleep"@,
            Syscall::ExitGroup => "exit_group"@,
            Syscall::EpollWait => "epoll_wait"@,
            Syscall::EpollCtl => "epoll_ctl"@,
            Syscall::Tgkill => "tgkill"@,
            Syscall::Utimes => "utimes"@,
            Syscall::Vserver => "vserver"@,
            Syscall::Mbind => "mbind"@,
            Syscall::SetMempolicy => "set_mempolicy"@,
            Syscall::GetMempolicy => "get_mempolicy"@,
            Syscall::MqOpen => "mq_open"@,
            Syscall::MqUnlink => "mq_unlink"@,
            Syscall::MqTimedsend => "mq_timedsend"@,
            Syscall::MqTimedreceive => "mq_timedreceive"@,
            Syscall::MqNotify => "mq_notify"@,
            Syscall::MqGetsetattr => "mq_getsetattr"@,
            Syscall::KexecLoad => "kexec_load"@,
            Syscall::Waitid => "waitid"@,
            Syscall::AddKey => "add_key"@,
            Syscall::RequestKey => "request_key"@,
            Syscall::Keyctl => "keyctl"@,
            Syscall::IoprioSet => "ioprio_set"@,
            Syscall::IoprioGet => "ioprio_get"@,
            Syscall::InotifyInit => "inotify_init"@,
            Syscall::InotifyAddWatch => "inotify_add_watch"@,
            Syscall::InotifyRmWatch => "inotify_rm_watch"@,
            Syscall::MigratePages => "migrate_pages"@,
            Syscall::Openat => "openat"@,
            Syscall::Mkdirat => "mkdirat"@,
            Syscall::Mknodat => "mknodat"@,
            Syscall::Fchownat => "fchownat"@,
            Syscall::Futimesat => "futimesat"@,
            Syscall::Newfstatat => "newfstatat"@,
            Syscall::Unlinkat => "unlinkat"@,
            Syscall::Renameat => "renameat"@,
            Syscall::Linkat => "linkat"@,
            Syscall::Symlinkat => "symlinkat"@,
            Syscall::Readlinkat => "readlinkat"@,
            Syscall::Fchmodat => "fchmodat"@,
            Syscall::Faccessat => "faccessat"@,
            Syscall::Pselect6 => "pselect6"@,
            Syscall::Ppoll => "ppoll"@,
            Syscall::Unshare => "unshare"@,
            Syscall::SetRobustList => "set_robust_list"@,
            Syscall::GetRobustList => "get_robust_list"@,
            Syscall::Splice => "splice"@,
            Syscall::Tee => "tee"@,
            Syscall::SyncFileRange => "sync_file_range"@,
            Syscall::Vmsplice => "vmsplice"@,
            Syscall::MovePages => "move_pages"@,
            Syscall::Utimensat => "utimensat"@,
            Syscall::EpollPwait => "epoll_pwait"@,
            Syscall::Signalfd => "signalfd"@,
            Syscall::TimerfdCreate => "timerfd_create"@,
            Syscall::Eventfd => "eventfd"@,
            Syscall::Fallocate => "fallocate"@,
            Syscall::TimerfdSettime => "timerfd_settime"@,
            Syscall::TimerfdGettime => "timerfd_gettime"@,
            Syscall::Accept4 => "accept4"@,
            Syscall::Signalfd4 => "signalfd4"@,
            Syscall::Eventfd2 => "eventfd2"@,
            Syscall::EpollCreate1 => "epoll_create1"@,
            Syscall::Dup3 => "dup3"@,
            Syscall::Pipe2 => "pipe2"@,
            Syscall::InotifyInit1 => "inotify_init1"@,
            Syscall::Preadv => "preadv"@,
            Syscall::Pwritev => "pwritev"@,
            Syscall::RtTgsigqueueinfo => "rt_tgsigqueueinfo"@,
            Syscall::PerfEventOpen => "perf_event_open"@,
            Syscall::Recvmmsg => "recvmmsg"@,
            Syscall::FanotifyInit => "fanotify_init"@,
            Syscall::FanotifyMark => "fanotify_mark"@,
            Syscall::Prlimit64 => "prlimit64"@,
            Syscall::NameToHandleAt => "name_to_handle_at"@,
            Syscall::OpenByHandleAt => "open_by_handle_at"@,
            Syscall::ClockAdjtime => "clock_adjtime"@,
            Syscall::Syncfs => "syncfs"@,
            Syscall::Sendmmsg => "sendmmsg"@,
            Syscall::Setns => "setns"@,
            Syscall::Getcpu => "getcpu"@,
            Syscall::ProcessVmReadv => "process_vm_readv"@,
            Syscall::ProcessVmWritev => "process_vm_writev"@,
            Syscall::Kcmp => "kcmp"@,
            Syscall::FinitModule => "finit_module"@,
            Syscall::SchedSetattr => "sched_setattr"@,
            Syscall::SchedGetattr => "sched_getattr"@,
            Syscall::Renameat2 => "renameat2"@,
            Syscall::Seccomp => "seccomp"@,
            Syscall::Getrandom => "getrandom"@,
            Syscall::MemfdCreate => "memfd_create"@,
            Syscall::KexecFileLoad => "kexec_file_load"@,
            Syscall::Bpf => "bpf"@,
            Syscall::Execveat => "execveat"@,
            Syscall::Userfaultfd => "userfaultfd"@,
            Syscall::Membarrier => "membarrier"@,
            Syscall::Mlock2 => "mlock2"@,
            Syscall::CopyFileRange => "copy_file_range"@,
            Syscall::Preadv2 => "preadv2"@,
            Syscall::Pwritev2 => "pwritev2"@,
            Syscall::PkeyMprotect => "pkey_mprotect"@,
            Syscall::PkeyAlloc => "pkey_alloc"@,
            Syscall::PkeyFree => "pkey_free"@,
            Syscall::Statx => "statx"@,
            Syscall::IoPgetevents => "io_pgetevents"@,
            Syscall::Rseq => "rseq"@,
            Syscall::PidfdSendSignal => "pidfd_send_signal"@,
            Syscall::IoUringSetup => "io_uring_setup"@,
            Syscall::IoUringEnter => "io_uring_enter"@,
            Syscall::IoUringRegister => "io_uring_register"@,
            Syscall::OpenTree => "open_tree"@,
            Syscall::MoveMount => "move_mount"@,
            Syscall::Fsopen => "fsopen"@,
            Syscall::Fsconfig => "fsconfig"@,
            Syscall::Fsmount => "fsmount"@,
            Syscall::Fspick => "fspick"@,
            Syscall::PidfdOpen => "pidfd_open"@,
            Syscall::Clone3 => "clone3"@,
        }
    }

    /// The system call that `num` decodes to, or the error that rejects it.
    pub open spec fn spec_from_number(num: i32) -> Result<Syscall, SeccompError> {
        if Syscall::is_known(num) {
            Ok(choose|s: Syscall| s.spec_number() == num)
        } else {
            Err(SeccompError::UnsupportedSyscallID(num))
        }
    }

    /// The ABI number of this system call.
    #[verifier::when_used_as_spec(spec_number)]
    pub fn number(self) -> (n: i32)
        ensures
            n == self.spec_number(),
            Syscall::is_known(n),
    {
        match self {
            Syscall::Read => 0,
            Syscall::Write => 1,
            Syscall::Open => 2,
            Syscall::Close => 3,
            Syscall::Stat => 4,
            Syscall::Fstat => 5,
            Syscall::Lstat => 6,
            Syscall::Poll => 7,
            Syscall::Lseek => 8,
            Syscall::Mmap => 9,
            Syscall::Mprotect => 10,
            Syscall::Munmap => 11,
            Syscall::Brk => 12,
            Syscall::RtSigaction => 13,
            Syscall::RtSigprocmask => 14,
            Syscall::RtSigreturn => 15,
            Syscall::Ioctl => 16,
            Syscall::Pread64 => 17,
            Syscall::Pwrite64 => 18,
            Syscall::Readv => 19,
            Syscall::Writev => 20,
            Syscall::Access => 21,
            Syscall::Pipe => 22,
            Syscall::Select => 23,
            Syscall::SchedYield => 24,
            Syscall::Mremap => 25,
            Syscall::Msync => 26,
            Syscall::Mincore => 27,
            Syscall::Madvise => 28,
            Syscall::Shmget => 29,
            Syscall::Shmat => 30,
            Syscall::Shmctl => 31,
            Syscall::Dup => 32,
            Syscall::Dup2 => 33,
            Syscall::Pause => 34,
            Syscall::Nanosleep => 35,
            Syscall::Getitimer => 36,
            Syscall::Alarm => 37,
            Syscall::Setitimer => 38,
            Syscall::Getpid => 39,
            Syscall::Sendfile => 40,
            Syscall::Socket => 41,
            Syscall::Connect => 42,
            Syscall::Accept => 43,
            Syscall::Sendto => 44,
            Syscall::Recvfrom => 45,
            Syscall::Sendmsg => 46,
            Syscall::Recvmsg => 47,
            Syscall::Shutdown => 48,
            Syscall::Bind => 49,
            Syscall::Listen => 50,
            Syscall::Getsockname => 51,
            Syscall::Getpeername => 52,
            Syscall::Socketpair => 53,
            Syscall::Setsockopt => 54,
            Syscall::Getsockopt => 55,
            Syscall::Clone => 56,
            Syscall::Fork => 57,
            Syscall::Vfork => 58,
            Syscall::Execve => 59,
            Syscall::Exit => 60,
            Syscall::Wait4 => 61,
            Syscall::Kill => 62,
            Syscall::Uname => 63,
            Syscall::Semget => 64,
            Syscall::Semop => 65,
            Syscall::Semctl => 66,
            Syscall::Shmdt => 67,
            Syscall::Msgget => 68,
            Syscall::Msgsnd => 69,
            Syscall::Msgrcv => 70,
            Syscall::Msgctl => 71,
            Syscall::Fcntl => 72,
            Syscall::Flock => 73,
            Syscall::Fsync => 74,
            Syscall::Fdatasync => 75,
            Syscall::Truncate => 76,
            Syscall::Ftruncate => 77,
            Syscall::Getdents => 78,
            Syscall::Getcwd => 79,
            Syscall::Chdir => 80,
            Syscall::Fchdir => 81,
            Syscall::Rename => 82,
            Syscall::Mkdir => 83,
            Syscall::Rmdir => 84,
            Syscall::Creat => 85,
            Syscall::Link => 86,
            Syscall::Unlink => 87,
            Syscall::Symlink => 88,
            Syscall::Readlink => 89,
            Syscall::Chmod => 90,
            Syscall::Fchmod => 91,
            Syscall::Chown => 92,
            Syscall::Fchown => 93,
            Syscall::Lchown => 94,
            Syscall::Umask => 95,
            Syscall::Gettimeofday => 96,
            Syscall::Getrlimit => 97,
            Syscall::Getrusage => 98,
            Syscall::Sysinfo => 99,
            Syscall::Times => 100,
            Syscall::Ptrace => 101,
            Syscall::Getuid => 102,
            Syscall::Syslog => 103,
            Syscall::Getgid => 104,
            Syscall::Setuid => 105,
            Syscall::Setgid => 106,
            Syscall::Geteuid => 107,
            Syscall::Getegid => 108,
            Syscall::Setpgid => 109,
            Syscall::Getppid => 110,
            Syscall::Getpgrp => 111,
            Syscall::Setsid => 112,
            Syscall::Setreuid => 113,
            Syscall::Setregid => 114,
            Syscall::Getgroups => 115,
            Syscall::Setgroups => 116,
            Syscall::Setresuid => 117,
            Syscall::Getresuid => 118,
            Syscall::Setresgid => 119,
            Syscall::Getresgid => 120,
            Syscall::Getpgid => 121,
            Syscall::Setfsuid => 122,
            Syscall::Setfsgid => 123,
            Syscall::Getsid => 124,
            Syscall::Capget => 125,
            Syscall::Capset => 126,
            Syscall::RtSigpending => 127,
            Syscall::RtSigtimedwait => 128,
            Syscall::RtSigqueueinfo => 129,
            Syscall::RtSigsuspend => 130,
            Syscall::Sigaltstack => 131,
            Syscall::Utime => 132,
            Syscall::Mknod => 133,
            Syscall::Uselib => 134,
            Syscall::Personality => 135,
            Syscall::Ustat => 136,
            Syscall::Statfs => 137,
            Syscall::Fstatfs => 138,
            Syscall::Sysfs => 139,
            Syscall::Getpriority => 140,
            Syscall::Setpriority => 141,
            Syscall::SchedSetparam => 142,
            Syscall::SchedGetparam => 143,
            Syscall::SchedSetscheduler => 144,
            Syscall::SchedGetscheduler => 145,
            Syscall::SchedGetPriorityMax => 146,
            Syscall::SchedGetPriorityMin => 147,
            Syscall::SchedRrGetInterval => 148,
            Syscall::Mlock => 149,
            Syscall::Munlock => 150,
            Syscall::Mlockall => 151,
            Syscall::Munlockall => 152,
            Syscall::Vhangup => 153,
            Syscall::ModifyLdt => 154,
            Syscall::PivotRoot => 155,
            Syscall::Sysctl => 156,
            Syscall::Prctl => 157,
            Syscall::ArchPrctl => 158,
            Syscall::Adjtimex => 159,
            Syscall::Setrlimit => 160,
            Syscall::Chroot => 161,
            Syscall::Sync => 162,
            Syscall::Acct => 163,
            Syscall::Settimeofday => 164,
            Syscall::Mount => 165,
            Syscall::Umount2 => 166,
            Syscall::Swapon => 167,
            Syscall::Swapoff => 168,
            Syscall::Reboot => 169,
            Syscall::Sethostname => 170,
            Syscall::Setdomainname => 171,
            Syscall::Iopl => 172,
            Syscall::Ioperm => 173,
            Syscall::CreateModule => 174,
            Syscall::InitModule => 175,
            Syscall::DeleteModule => 176,
            Syscall::GetKernelSyms => 177,
            Syscall::QueryModule => 178,
            Syscall::Quotactl => 179,
            Syscall::Nfsservctl => 180,
            Syscall::Getpmsg => 181,
            Syscall::Putpmsg => 182,
            Syscall::AfsSyscall => 183,
            Syscall::Tuxcall => 184,
            Syscall::Security => 185,
            Syscall::Gettid => 186,
            Syscall::Readahead => 187,
            Syscall::Setxattr => 188,
            Syscall::Lsetxattr => 189,
            Syscall::Fsetxattr => 190,
            Syscall::Getxattr => 191,
            Syscall::Lgetxattr => 192,
            Syscall::Fgetxattr => 193,
            Syscall::Listxattr => 194,
            Syscall::Llistxattr => 195,
            Syscall::Flistxattr => 196,
            Syscall::Removexattr => 197,
            Syscall::Lremovexattr => 198,
            Syscall::Fremovexattr => 199,
            Syscall::Tkill => 200,
            Syscall::Time => 201,
            Syscall::Futex => 202,
            Syscall::SchedSetaffinity => 203,
            Syscall::SchedGetaffinity => 204,
            Syscall::SetThreadArea => 205,
            Syscall::IoSetup => 206,
            Syscall::IoDestroy => 207,
            Syscall::IoGetevents => 208,
            Syscall::IoSubmit => 209,
            Syscall::IoCancel => 210,
            Syscall::GetThreadArea => 211,
            Syscall::LookupDcookie => 212,
            Syscall::EpollCreate => 213,
            Syscall::EpollCtlOld => 214,
            Syscall::EpollWaitOld => 215,
            Syscall::RemapFilePages => 216,
            Syscall::Getdents64 => 217,
            Syscall::SetTidAddress => 218,
            Syscall::RestartSyscall => 219,
            Syscall::Semtimedop => 220,
            Syscall::Fadvise64 => 221,
            Syscall::TimerCreate => 222,
            Syscall::TimerSettime => 223,
            Syscall::TimerGettime => 224,
            Syscall::TimerGetoverrun => 225,
            Syscall::TimerDelete => 226,
            Syscall::ClockSettime => 227,
            Syscall::ClockGettime => 228,
            Syscall::ClockGetres => 229,
            Syscall::ClockNanosleep => 230,
            Syscall::ExitGroup => 231,
            Syscall::EpollWait => 232,
            Syscall::EpollCtl => 233,
            Syscall::Tgkill => 234,
            Syscall::Utimes => 235,
            Syscall::Vserver => 236,
            Syscall::Mbind => 237,
            Syscall::SetMempolicy => 238,
            Syscall::GetMempolicy => 239,
            Syscall::MqOpen => 240,
            Syscall::MqUnlink => 241,
            Syscall::MqTimedsend => 242,
            Syscall::MqTimedreceive => 243,
            Syscall::MqNotify => 244,
            Syscall::MqGetsetattr => 245,
            Syscall::KexecLoad => 246,
            Syscall::Waitid => 247,
            Syscall::AddKey => 248,
            Syscall::RequestKey => 249,
            Syscall::Keyctl => 250,
            Syscall::IoprioSet => 251,
            Syscall::IoprioGet => 252,
            Syscall::InotifyInit => 253,
            Syscall::InotifyAddWatch => 254,
            Syscall::InotifyRmWatch => 255,
            Syscall::MigratePages => 256,
            Syscall::Openat => 257,
            Syscall::Mkdirat => 258,
            Syscall::Mknodat => 259,
            Syscall::Fchownat => 260,
            Syscall::Futimesat => 261,
            Syscall::Newfstatat => 262,
            Syscall::Unlinkat => 263,
            Syscall::Renameat => 264,
            Syscall::Linkat => 265,
            Syscall::Symlinkat => 266,
            Syscall::Readlinkat => 267,
            Syscall::Fchmodat => 268,
            Syscall::Faccessat => 269,
            Syscall::Pselect6 => 270,
            Syscall::Ppoll => 271,
            Syscall::Unshare => 272,
            Syscall::SetRobustList => 273,
            Syscall::GetRobustList => 274,
            Syscall::Splice => 275,
            Syscall::Tee => 276,
            Syscall::SyncFileRange => 277,
            Syscall::Vmsplice => 278,
            Syscall::MovePages => 279,
            Syscall::Utimensat => 280,
            Syscall::EpollPwait => 281,
            Syscall::Signalfd => 282,
            Syscall::TimerfdCreate => 283,
            Syscall::Eventfd => 284,
            Syscall::Fallocate => 285,
            Syscall::TimerfdSettime => 286,
            Syscall::TimerfdGettime => 287,
            Syscall::Accept4 => 288,
            Syscall::Signalfd4 => 289,
            Syscall::Eventfd2 => 290,
            Syscall::EpollCreate1 => 291,
            Syscall::Dup3 => 292,
            Syscall::Pipe2 => 293,
            Syscall::InotifyInit1 => 294,
            Syscall::Preadv => 295,
            Syscall::Pwritev => 296,
            Syscall::RtTgsigqueueinfo => 297,
            Syscall::PerfEventOpen => 298,
            Syscall::Recvmmsg => 299,
            Syscall::FanotifyInit => 300,
            Syscall::FanotifyMark => 301,
            Syscall::Prlimit64 => 302,
            Syscall::NameToHandleAt => 303,
            Syscall::OpenByHandleAt => 304,
            Syscall::ClockAdjtime => 305,
            Syscall::Syncfs => 306,
            Syscall::Sendmmsg => 307,
            Syscall::Setns => 308,
            Syscall::Getcpu => 309,
            Syscall::ProcessVmReadv => 310,
            Syscall::ProcessVmWritev => 311,
            Syscall::Kcmp => 312,
            Syscall::FinitModule => 313,
            Syscall::SchedSetattr => 314,
            Syscall::SchedGetattr => 315,
            Syscall::Renameat2 => 316,
            Syscall::Seccomp => 317,
            Syscall::Getrandom => 318,
            Syscall::MemfdCreate => 319,
            Syscall::KexecFileLoad => 320,
            Syscall::Bpf => 321,
            Syscall::Execveat => 322,
            Syscall::Userfaultfd => 323,
            Syscall::Membarrier => 324,
            Syscall::Mlock2 => 325,
            Syscall::CopyFileRange => 326,
            Syscall::Preadv2 => 327,
            Syscall::Pwritev2 => 328,
            Syscall::PkeyMprotect => 329,
            Syscall::PkeyAlloc => 330,
            Syscall::PkeyFree => 331,
            Syscall::Statx => 332,
            Syscall::IoPgetevents => 333,
            Syscall::Rseq => 334,
            Syscall::PidfdSendSignal => 424,
            Syscall::IoUringSetup => 425,
            Syscall::IoUringEnter => 426,
            Syscall::IoUringRegister => 427,
            Syscall::OpenTree => 428,
            Syscall::MoveMount => 429,
            Syscall::Fsopen => 430,
            Syscall::Fsconfig => 431,
            Syscall::Fsmount => 432,
            Syscall::Fspick => 433,
            Syscall::PidfdOpen => 434,
            Syscall::Clone3 => 435,
        }
    }

    /// The system call with ABI number `num`.
    ///
    /// Fails with `UnsupportedSyscallID(num)` exactly when the table holds no
    /// entry for `num`.
    pub fn from_number(num: i32) -> (r: Result<Syscall, SeccompError>)
        ensures
            r == Syscall::spec_from_number(num),
            match r {
                Ok(s) => Syscall::is_known(num) && s.spec_number() == num,
                Err(e) => !Syscall::is_known(num) && e
                    == SeccompError::UnsupportedSyscallID(num),
            },
    {
        let r = Syscall::decode(num);
        proof {
            if let Ok(s) = r {
                let c = choose|c: Syscall| c.spec_number() == num;
                Syscall::lemma_number_injective(c, s);
            }
        }
        r
    }

    fn decode(num: i32) -> (r: Result<Syscall, SeccompError>)
        ensures
            match r {
                Ok(s) => Syscall::is_known(num) && s.spec_number() == num,
                Err(e) => !Syscall::is_known(num) && e
                    == SeccompError::UnsupportedSyscallID(num),
            },
    {
        if num < 0 {
            Err(SeccompError::UnsupportedSyscallID(num))

        } else if num <= 31 {
            Ok(Syscall::decode_from_0(num))
        } else if num <= 63 {
            Ok(Syscall::decode_from_32(num))
        } else if num <= 95 {
            Ok(Syscall::decode_from_64(num))
        } else if num <= 127 {
            Ok(Syscall::decode_from_96(num))
        } else if num <= 159 {
            Ok(Syscall::decode_from_128(num))
        } else if num <= 191 {
            Ok(Syscall::decode_from_160(num))
        } else if num <= 223 {
            Ok(Syscall::decode_from_192(num))
        } else if num <= 255 {
            Ok(Syscall::decode_from_224(num))
        } else if num <= 287 {
            Ok(Syscall::decode_from_256(num))
        } else if num <= 319 {
            Ok(Syscall::decode_from_288(num))
        } else if num <= 334 {
            Ok(Syscall::decode_from_320(num))
        } else if num < 424 {
            Err(SeccompError::UnsupportedSyscallID(num))
        } else if num <= 435 {
            Ok(Syscall::decode_from_424(num))
        } else {
            Err(SeccompError::UnsupportedSyscallID(num))
        }
    }

    /// Decodes the numbers from 0 to 31.
    fn decode_from_0(num: i32) -> (s: Syscall)
        requires
            0 <= num <= 31,
        ensures
            s.spec_number() == num,
    {
        match num {
            0 => Syscall::Read,
            1 => Syscall::Write,
            2 => Syscall::Open,
            3 => Syscall::Close,
            4 => Syscall::Stat,
            5 => Syscall::Fstat,
            6 => Syscall::Lstat,
            7 => Syscall::Poll,
            8 => Syscall::Lseek,
            9 => Syscall::Mmap,
            10 => Syscall::Mprotect,
            11 => Syscall::Munmap,
            12 => Syscall::Brk,
            13 => Syscall::RtSigaction,
            14 => Syscall::RtSigprocmask,
            15 => Syscall::RtSigreturn,
            16 => Syscall::Ioctl,
            17 => Syscall::Pread64,
            18 => Syscall::Pwrite64,
            19 => Syscall::Readv,
            20 => Syscall::Writev,
            21 => Syscall::Access,
            22 => Syscall::Pipe,
            23 => Syscall::Select,
            24 => Syscall::SchedYield,
            25 => Syscall::Mremap,
            26 => Syscall::Msync,
            27 => Syscall::Mincore,
            28 => Syscall::Madvise,
            29 => Syscall::Shmget,
            30 => Syscall::Shmat,
            _ => Syscall::Shmctl,
        }
    }

    /// Decodes the numbers from 32 to 63.
    fn decode_from_32(num: i32) -> (s: Syscall)
        requires
            32 <= num <= 63,
        ensures
            s.spec_number() == num,
    {
        match num {
            32 => Syscall::Dup,
            33 => Syscall::Dup2,
            34 => Syscall::Pause,
            35 => Syscall::Nanosleep,
            36 => Syscall::Getitimer,
            37 => Syscall::Alarm,
            38 => Syscall::Setitimer,
            39 => Syscall::Getpid,
            40 => Syscall::Sendfile,
            41 => Syscall::Socket,
            42 => Syscall::Connect,
            43 => Syscall::Accept,
            44 => Syscall::Sendto,
            45 => Syscall::Recvfrom,
            46 => Syscall::Sendmsg,
            47 => Syscall::Recvmsg,
            48 => Syscall::Shutdown,
            49 => Syscall::Bind,
            50 => Syscall::Listen,
            51 => Syscall::Getsockname,
            52 => Syscall::Getpeername,
            53 => Syscall::Socketpair,
            54 => Syscall::Setsockopt,
            55 => Syscall::Getsockopt,
            56 => Syscall::Clone,
            57 => Syscall::Fork,
            58 => Syscall::Vfork,
            59 => Syscall::Execve,
            60 => Syscall::Exit,
            61 => Syscall::Wait4,
            62 => Syscall::Kill,
            _ => Syscall::Uname,
        }
    }

    /// Decodes the numbers from 64 to 95.
    fn decode_from_64(num: i32) -> (s: Syscall)
        requires
            64 <= num <= 95,
        ensures
            s.spec_number() == num,
    {
        match num {
            64 => Syscall::Semget,
            65 => Syscall::Semop,
            66 => Syscall::Semctl,
            67 => Syscall::Shmdt,
            68 => Syscall::Msgget,
            69 => Syscall::Msgsnd,
            70 => Syscall::Msgrcv,
            71 => Syscall::Msgctl,
            72 => Syscall::Fcntl,
            73 => Syscall::Flock,
            74 => Syscall::Fsync,
            75 => Syscall::Fdatasync,
            76 => Syscall::Truncate,
            77 => Syscall::Ftruncate,
            78 => Syscall::Getdents,
            79 => Syscall::Getcwd,
            80 => Syscall::Chdir,
            81 => Syscall::Fchdir,
            82 => Syscall::Rename,
            83 => Syscall::Mkdir,
            84 => Syscall::Rmdir,
            85 => Syscall::Creat,
            86 => Syscall::Link,
            87 => Syscall::Unlink,
            88 => Syscall::Symlink,
            89 => Syscall::Readlink,
            90 => Syscall::Chmod,
            91 => Syscall::Fchmod,
            92 => Syscall::Chown,
            93 => Syscall::Fchown,
            94 => Syscall::Lchown,
            _ => Syscall::Umask,
        }
    }

    /// Decodes the numbers from 96 to 127.
    fn decode_from_96(num: i32) -> (s: Syscall)
        requires
            96 <= num <= 127,
        ensures
            s.spec_number() == num,
    {
        match num {
            96 => Syscall::Gettimeofday,
            97 => Syscall::Getrlimit,
            98 => Syscall::Getrusage,
            99 => Syscall::Sysinfo,
            100 => Syscall::Times,
            101 => Syscall::Ptrace,
            102 => Syscall::Getuid,
            103 => Syscall::Syslog,
            104 => Syscall::Getgid,
            105 => Syscall::Setuid,
            106 => Syscall::Setgid,
            107 => Syscall::Geteuid,
            108 => Syscall::Getegid,
            109 => Syscall::Setpgid,
            110 => Syscall::Getppid,
            111 => Syscall::Getpgrp,
            112 => Syscall::Setsid,
            113 => Syscall::Setreuid,
            114 => Syscall::Setregid,
            115 => Syscall::Getgroups,
            116 => Syscall::Setgroups,
            117 => Syscall::Setresuid,
            118 => Syscall::Getresuid,
            119 => Syscall::Setresgid,
            120 => Syscall::Getresgid,
            121 => Syscall::Getpgid,
            122 => Syscall::Setfsuid,
            123 => Syscall::Setfsgid,
            124 => Syscall::Getsid,
            125 => Syscall::Capget,
            126 => Syscall::Capset,
            _ => Syscall::RtSigpending,
        }
    }

    /// Decodes the numbers from 128 to 159.
    fn decode_from_128(num: i32) -> (s: Syscall)
        requires
            128 <= num <= 159,
        ensures
            s.spec_number() == num,
    {
        match num {
            128 => Syscall::RtSigtimedwait,
            129 => Syscall::RtSigqueueinfo,
            130 => Syscall::RtSigsuspend,
            131 => Syscall::Sigaltstack,
            132 => Syscall::Utime,
            133 => Syscall::Mknod,
            134 => Syscall::Uselib,
            135 => Syscall::Personality,
            136 => Syscall::Ustat,
            137 => Syscall::Statfs,
            138 => Syscall::Fstatfs,
            139 => Syscall::Sysfs,
            140 => Syscall::Getpriority,
            141 => Syscall::Setpriority,
            142 => Syscall::SchedSetparam,
            143 => Syscall::SchedGetparam,
            144 => Syscall::SchedSetscheduler,
            145 => Syscall::SchedGetscheduler,
            146 => Syscall::SchedGetPriorityMax,
            147 => Syscall::SchedGetPriorityMin,
            148 => Syscall::SchedRrGetInterval,
            149 => Syscall::Mlock,
            150 => Syscall::Munlock,
            151 => Syscall::Mlockall,
            152 => Syscall::Munlockall,
            153 => Syscall::Vhangup,
            154 => Syscall::ModifyLdt,
            155 => Syscall::PivotRoot,
            156 => Syscall::Sysctl,
            157 => Syscall::Prctl,
            158 => Syscall::ArchPrctl,
            _ => Syscall::Adjtimex,
        }
    }

    /// Decodes the numbers from 160 to 191.
    fn decode_from_160(num: i32) -> (s: Syscall)
        requires
            160 <= num <= 191,
        ensures
            s.spec_number() == num,
    {
        match num {
            160 => Syscall::Setrlimit,
            161 => Syscall::Chroot,
            162 => Syscall::Sync,
            163 => Syscall::Acct,
            164 => Syscall::Settimeofday,
            165 => Syscall::Mount,
            166 => Syscall::Umount2,
            167 => Syscall::Swapon,
            168 => Syscall::Swapoff,
            169 => Syscall::Reboot,
            170 => Syscall::Sethostname,
            171 => Syscall::Setdomainname,
            172 => Syscall::Iopl,
            173 => Syscall::Ioperm,
            174 => Syscall::CreateModule,
            175 => Syscall::InitModule,
            176 => Syscall::DeleteModule,
            177 => Syscall::GetKernelSyms,
            178 => Syscall::QueryModule,
            179 => Syscall::Quotactl,
            180 => Syscall::Nfsservctl,
            181 => Syscall::Getpmsg,
            182 => Syscall::Putpmsg,
            183 => Syscall::AfsSyscall,
            184 => Syscall::Tuxcall,
            185 => Syscall::Security,
            186 => Syscall::Gettid,
            187 => Syscall::Readahead,
            188 => Syscall::Setxattr,
            189 => Syscall::Lsetxattr,
            190 => Syscall::Fsetxattr,
            _ => Syscall::Getxattr,
        }
    }

    /// Decodes the numbers from 192 to 223.
    fn decode_from_192(num: i32) -> (s: Syscall)
        requires
            192 <= num <= 223,
        ensures
            s.spec_number() == num,
    {
        match num {
            192 => Syscall::Lgetxattr,
            193 => Syscall::Fgetxattr,
            194 => Syscall::Listxattr,
            195 => Syscall::Llistxattr,
            196 => Syscall::Flistxattr,
            197 => Syscall::Removexattr,
            198 => Syscall::Lremovexattr,
            199 => Syscall::Fremovexattr,
            200 => Syscall::Tkill,
            201 => Syscall::Time,
            202 => Syscall::Futex,
            203 => Syscall::SchedSetaffinity,
            204 => Syscall::SchedGetaffinity,
            205 => Syscall::SetThreadArea,
            206 => Syscall::IoSetup,
            207 => Syscall::IoDestroy,
            208 => Syscall::IoGetevents,
            209 => Syscall::IoSubmit,
            210 => Syscall::IoCancel,
            211 => Syscall::GetThreadArea,
            212 => Syscall::LookupDcookie,
            213 => Syscall::EpollCreate,
            214 => Syscall::EpollCtlOld,
            215 => Syscall::EpollWaitOld,
            216 => Syscall::RemapFilePages,
            217 => Syscall::Getdents64,
            218 => Syscall::SetTidAddress,
            219 => Syscall::RestartSyscall,
            220 => Syscall::Semtimedop,
            221 => Syscall::Fadvise64,
            222 => Syscall::TimerCreate,
            _ => Syscall::TimerSettime,
        }
    }

    /// Decodes the numbers from 224 to 255.
    fn decode_from_224(num: i32) -> (s: Syscall)
        requires
            224 <= num <= 255,
        ensures
            s.spec_number() == num,
    {
        match num {
            224 => Syscall::TimerGettime,
            225 => Syscall::TimerGetoverrun,
            226 => Syscall::TimerDelete,
            227 => Syscall::ClockSettime,
            228 => Syscall::ClockGettime,
            229 => Syscall::ClockGetres,
            230 => Syscall::ClockNanosleep,
            231 => Syscall::ExitGroup,
            232 => Syscall::EpollWait,
            233 => Syscall::EpollCtl,
            234 => Syscall::Tgkill,
            235 => Syscall::Utimes,
            236 => Syscall::Vserver,
            237 => Syscall::Mbind,
            238 => Syscall::SetMempolicy,
            239 => Syscall::GetMempolicy,
            240 => Syscall::MqOpen,
            241 => Syscall::MqUnlink,
            242 => Syscall::MqTimedsend,
            243 => Syscall::MqTimedreceive,
            244 => Syscall::MqNotify,
            245 => Syscall::MqGetsetattr,
            246 => Syscall::KexecLoad,
            247 => Syscall::Waitid,
            248 => Syscall::AddKey,
            249 => Syscall::RequestKey,
            250 => Syscall::Keyctl,
            251 => Syscall::IoprioSet,
            252 => Syscall::IoprioGet,
            253 => Syscall::InotifyInit,
            254 => Syscall::InotifyAddWatch,
            _ => Syscall::InotifyRmWatch,
        }
    }

    /// Decodes the numbers from 256 to 287.
    fn decode_from_256(num: i32) -> (s: Syscall)
        requires
            256 <= num <= 287,
        ensures
            s.spec_number() == num,
    {
        match num {
            256 => Syscall::MigratePages,
            257 => Syscall::Openat,
            258 => Syscall::Mkdirat,
            259 => Syscall::Mknodat,
            260 => Syscall::Fchownat,
            261 => Syscall::Futimesat,
            262 => Syscall::Newfstatat,
            263 => Syscall::Unlinkat,
            264 => Syscall::Renameat,
            265 => Syscall::Linkat,
            266 => Syscall::Symlinkat,
            267 => Syscall::Readlinkat,
            268 => Syscall::Fchmodat,
            269 => Syscall::Faccessat,
            270 => Syscall::Pselect6,
            271 => Syscall::Ppoll,
            272 => Syscall::Unshare,
            273 => Syscall::SetRobustList,
            274 => Syscall::GetRobustList,
            275 => Syscall::Splice,
            276 => Syscall::Tee,
            277 => Syscall::SyncFileRange,
            278 => Syscall::Vmsplice,
            279 => Syscall::MovePages,
            280 => Syscall::Utimensat,
            281 => Syscall::EpollPwait,
            282 => Syscall::Signalfd,
            283 => Syscall::TimerfdCreate,
            284 => Syscall::Eventfd,
            285 => Syscall::Fallocate,
            286 => Syscall::TimerfdSettime,
            _ => Syscall::TimerfdGettime,
        }
    }

    /// Decodes the numbers from 288 to 319.
    fn decode_from_288(num: i32) -> (s: Syscall)
        requires
            288 <= num <= 319,
        ensures
            s.spec_number() == num,
    {
        match num {
            288 => Syscall::Accept4,
            289 => Syscall::Signalfd4,
            290 => Syscall::Eventfd2,
            291 => Syscall::EpollCreate1,
            292 => Syscall::Dup3,
            293 => Syscall::Pipe2,
            294 => Syscall::InotifyInit1,
            295 => Syscall::Preadv,
            296 => Syscall::Pwritev,
            297 => Syscall::RtTgsigqueueinfo,
            298 => Syscall::PerfEventOpen,
            299 => Syscall::Recvmmsg,
            300 => Syscall::FanotifyInit,
            301 => Syscall::FanotifyMark,
            302 => Syscall::Prlimit64,
            303 => Syscall::NameToHandleAt,
            304 => Syscall::OpenByHandleAt,
            305 => Syscall::ClockAdjtime,
            306 => Syscall::Syncfs,
            307 => Syscall::Sendmmsg,
            308 => Syscall::Setns,
            309 => Syscall::Getcpu,
            310 => Syscall::ProcessVmReadv,
            311 => Syscall::ProcessVmWritev,
            312 => Syscall::Kcmp,
            313 => Syscall::FinitModule,
            314 => Syscall::SchedSetattr,
            315 => Syscall::SchedGetattr,
            316 => Syscall::Renameat2,
            317 => Syscall::Seccomp,
            318 => Syscall::Getrandom,
            _ => Syscall::MemfdCreate,
        }
    }

    /// Decodes the numbers from 320 to 334.
    fn decode_from_320(num: i32) -> (s: Syscall)
        requires
            320 <= num <= 334,
        ensures
            s.spec_number() == num,
    {
        match num {
            320 => Syscall::KexecFileLoad,
            321 => Syscall::Bpf,
            322 => Syscall::Execveat,
            323 => Syscall::Userfaultfd,
            324 => Syscall::Membarrier,
            325 => Syscall::Mlock2,
            326 => Syscall::CopyFileRange,
            327 => Syscall::Preadv2,
            328 => Syscall::Pwritev2,
            329 => Syscall::PkeyMprotect,
            330 => Syscall::PkeyAlloc,
            331 => Syscall::PkeyFree,
            332 => Syscall::Statx,
            333 => Syscall::IoPgetevents,
            _ => Syscall::Rseq,
        }
    }

    /// Decodes the numbers from 424 to 435.
    fn decode_from_424(num: i32) -> (s: Syscall)
        requires
            424 <= num <= 435,
        ensures
            s.spec_number() == num,
    {
        match num {
            424 => Syscall::PidfdSendSignal,
            425 => Syscall::IoUringSetup,
            426 => Syscall::IoUringEnter,
            427 => Syscall::IoUringRegister,
            428 => Syscall::OpenTree,
            429 => Syscall::MoveMount,
            430 => Syscall::Fsopen,
            431 => Syscall::Fsconfig,
            432 => Syscall::Fsmount,
            433 => Syscall::Fspick,
            434 => Syscall::PidfdOpen,
            _ => Syscall::Clone3,
        }
    }

    /// Some system call has each of the numbers from 0 to 31.
    proof fn lemma_decodes_from_0(num: i32)
        requires
            0 <= num <= 31,
        ensures
            exists|s: Syscall| s.spec_number() == num,
    {
        if num == 0 {
            assert(Syscall::Read.spec_number() == num);
        } else if num == 1 {
            assert(Syscall::Write.spec_number() == num);
        } else if num == 2 {
            assert(Syscall::Open.spec_number() == num);
        } else if num == 3 {
            assert(Syscall::Close.spec_number() == num);
        } else if num == 4 {
            assert(Syscall::Stat.spec_number() == num);
        } else if num == 5 {
            assert(Syscall::Fstat.spec_number() == num);
        } else if num == 6 {
            assert(Syscall::Lstat.spec_number() == num);
        } else if num == 7 {
            assert(Syscall::Poll.spec_number() == num);
        } else if num == 8 {
            assert(Syscall::Lseek.spec_number() == num);
        } else if num == 9 {
            assert(Syscall::Mmap.spec_number() == num);
        } else if num == 10 {
            assert(Syscall::Mprotect.spec_number() == num);
        } else if num == 11 {
            assert(Syscall::Munmap.spec_number() == num);
        } else if num == 12 {
            assert(Syscall::Brk.spec_number() == num);
        } else if num == 13 {
            assert(Syscall::RtSigaction.spec_number() == num);
        } else if num == 14 {
            assert(Syscall::RtSigprocmask.spec_number() == num);
        } else if num == 15 {
            assert(Syscall::RtSigreturn.spec_number() == num);
        } else if num == 16 {
            assert(Syscall::Ioctl.spec_number() == num);
        } else if num == 17 {
            assert(Syscall::Pread64.spec_number() == num);
        } else if num == 18 {
            assert(Syscall::Pwrite64.spec_number() == num);
        } else if num == 19 {
            assert(Syscall::Readv.spec_number() == num);
        } else if num == 20 {
            assert(Syscall::Writev.spec_number() == num);
        } else if num == 21 {
            assert(Syscall::Access.spec_number() == num);
        } else if num == 22 {
            assert(Syscall::Pipe.spec_number() == num);
        } else if num == 23 {
            assert(Syscall::Select.spec_number() == num);
        } else if num == 24 {
            assert(Syscall::SchedYield.spec_number() == num);
        } else if num == 25 {
            assert(Syscall::Mremap.spec_number() == num);
        } else if num == 26 {
            assert(Syscall::Msync.spec_number() == num);
        } else if num == 27 {
            assert(Syscall::Mincore.spec_number() == num);
        } else if num == 28 {
            assert(Syscall::Madvise.spec_number() == num);
        } else if num == 29 {
            assert(Syscall::Shmget.spec_number() == num);
        } else if num == 30 {
            assert(Syscall::Shmat.spec_number() == num);
        } else if num == 31 {
            assert(Syscall::Shmctl.spec_number() == num);
        }
    }

    /// Some system call has each of the numbers from 32 to 63.
    proof fn lemma_decodes_from_32(num: i32)
        requires
            32 <= num <= 63,
        ensures
            exists|s: Syscall| s.spec_number() == num,
    {
        if num == 32 {
            assert(Syscall::Dup.spec_number() == num);
        } else if num == 33 {
            assert(Syscall::Dup2.spec_number() == num);
        } else if num == 34 {
            assert(Syscall::Pause.spec_number() == num);
        } else if num == 35 {
            assert(Syscall::Nanosleep.spec_number() == num);
        } else if num == 36 {
            assert(Syscall::Getitimer.spec_number() == num);
        } else if num == 37 {
            assert(Syscall::Alarm.spec_number() == num);
        } else if num == 38 {
            assert(Syscall::Setitimer.spec_number() == num);
        } else if num == 39 {
            assert(Syscall::Getpid.spec_number() == num);
        } else if num == 40 {
            assert(Syscall::Sendfile.spec_number() == num);
        } else if num == 41 {
            assert(Syscall::Socket.spec_number() == num);
        } else if num == 42 {
            assert(Syscall::Connect.spec_number() == num);
        } else if num == 43 {
            assert(Syscall::Accept.spec_number() == num);
        } else if num == 44 {
            assert(Syscall::Sendto.spec_number() == num);
        } else if num == 45 {
            assert(Syscall::Recvfrom.spec_number() == num);
        } else if num == 46 {
            assert(Syscall::Sendmsg.spec_number() == num);
        } else if num == 47 {
            assert(Syscall::Recvmsg.spec_number() == num);
        } else if num == 48 {
            assert(Syscall::Shutdown.spec_number() == num);
        } else if num == 49 {
            assert(Syscall::Bind.spec_number() == num);
        } else if num == 50 {
            assert(Syscall::Listen.spec_number() == num);
        } else if num == 51 {
            assert(Syscall::Getsockname.spec_number() == num);
        } else if num == 52 {
            assert(Syscall::Getpeername.spec_number() == num);
        } else if num == 53 {
            assert(Syscall::Socketpair.spec_number() == num);
        } else if num == 54 {
            assert(Syscall::Setsockopt.spec_number() == num);
        } else if num == 55 {
            assert(Syscall::Getsockopt.spec_number() == num);
        } else if num == 56 {
            assert(Syscall::Clone.spec_number() == num);
        } else if num == 57 {
            assert(Syscall::Fork.spec_number() == num);
        } else if num == 58 {
            assert(Syscall::Vfork.spec_number() == num);
        } else if num == 59 {
            assert(Syscall::Execve.spec_number() == num);
        } else if num == 60 {
            assert(Syscall::Exit.spec_number() == num);
        } else if num == 61 {
            assert(Syscall::Wait4.spec_number() == num);
        } else if num == 62 {
            assert(Syscall::Kill.spec_number() == num);
        } else if num == 63 {
            assert(Syscall::Uname.spec_number() == num);
        }
    }

    /// Some system call has each of the numbers from 64 to 95.
    proof fn lemma_decodes_from_64(num: i32)
        requires
            64 <= num <= 95,
        ensures
            exists|s: Syscall| s.spec_number() == num,
    {
        if num == 64 {
            assert(Syscall::Semget.spec_number() == num);
        } else if num == 65 {
            assert(Syscall::Semop.spec_number() == num);
        } else if num == 66 {
            assert(Syscall::Semctl.spec_number() == num);
        } else if num == 67 {
            assert(Syscall::Shmdt.spec_number() == num);
        } else if num == 68 {
            assert(Syscall::Msgget.spec_number() == num);
        } else if num == 69 {
            assert(Syscall::Msgsnd.spec_number() == num);
        } else if num == 70 {
            assert(Syscall::Msgrcv.spec_number() == num);
        } else if num == 71 {
            assert(Syscall::Msgctl.spec_number() == num);
        } else if num == 72 {
            assert(Syscall::Fcntl.spec_number() == num);
        } else if num == 73 {
            assert(Syscall::Flock.spec_number() == num);
        } else if num == 74 {
            assert(Syscall::Fsync.spec_number() == num);
        } else if num == 75 {
            assert(Syscall::Fdatasync.spec_number() == num);
        } else if num == 76 {
            assert(Syscall::Truncate.spec_number() == num);
        } else if num == 77 {
            assert(Syscall::Ftruncate.spec_number() == num);
        } else if num == 78 {
            assert(Syscall::Getdents.spec_number() == num);
        } else if num == 79 {
            assert(Syscall::Getcwd.spec_number() == num);
        } else if num == 80 {
            assert(Syscall::Chdir.spec_number() == num);
        } else if num == 81 {
            assert(Syscall::Fchdir.spec_number() == num);
        } else if num == 82 {
            assert(Syscall::Rename.spec_number() == num);
        } else if num == 83 {
            assert(Syscall::Mkdir.spec_number() == num);
        } else if num == 84 {
            assert(Syscall::Rmdir.spec_number() == num);
        } else if num == 85 {
            assert(Syscall::Creat.spec_number() == num);
        } else if num == 86 {
            assert(Syscall::Link.spec_number() == num);
        } else if num == 87 {
            assert(Syscall::Unlink.spec_number() == num);
        } else if num == 88 {
            assert(Syscall::Symlink.spec_number() == num);
        } else if num == 89 {
            assert(Syscall::Readlink.spec_number() == num);
        } else if num == 90 {
            assert(Syscall::Chmod.spec_number() == num);
        } else if num == 91 {
            assert(Syscall::Fchmod.spec_number() == num);
        } else if num == 92 {
            assert(Syscall::Chown.spec_number() == num);
        } else if num == 93 {
            assert(Syscall::Fchown.spec_number() == num);
        } else if num == 94 {
            assert(Syscall::Lchown.spec_number() == num);
        } else if num == 95 {
            assert(Syscall::Umask.spec_number() == num);
        }
    }

    /// Some system call has each of the numbers from 96 to 127.
    proof fn lemma_decodes_from_96(num: i32)
        requires
            96 <= num <= 127,
        ensures
            exists|s: Syscall| s.spec_number() == num,
    {
        if num == 96 {
            assert(Syscall::Gettimeofday.spec_number() == num);
        } else if num == 97 {
            assert(Syscall::Getrlimit.spec_number() == num);
        } else if num == 98 {
            assert(Syscall::Getrusage.spec_number() == num);
        } else if num == 99 {
            assert(Syscall::Sysinfo.spec_number() == num);
        } else if num == 100 {
            assert(Syscall::Times.spec_number() == num);
        } else if num == 101 {
            assert(Syscall::Ptrace.spec_number() == num);
        } else if num == 102 {
            assert(Syscall::Getuid.spec_number() == num);
        } else if num == 103 {
            assert(Syscall::Syslog.spec_number() == num);
        } else if num == 104 {
            assert(Syscall::Getgid.spec_number() == num);
        } else if num == 105 {
            assert(Syscall::Setuid.spec_number() == num);
        } else if num == 106 {
            assert(Syscall::Setgid.spec_number() == num);
        } else if num == 107 {
            assert(Syscall::Geteuid.spec_number() == num);
        } else if num == 108 {
            assert(Syscall::Getegid.spec_number() == num);
        } else if num == 109 {
            assert(Syscall::Setpgid.spec_number() == num);
        } else if num == 110 {
            assert(Syscall::Getppid.spec_number() == num);
        } else if num == 111 {
            assert(Syscall::Getpgrp.spec_number() == num);
        } else if num == 112 {
            assert(Syscall::Setsid.spec_number() == num);
        } else if num == 113 {
            assert(Syscall::Setreuid.spec_number() == num);
        } else if num == 114 {
            assert(Syscall::Setregid.spec_number() == num);
        } else if num == 115 {
            assert(Syscall::Getgroups.spec_number() == num);
        } else if num == 116 {
            assert(Syscall::Setgroups.spec_number() == num);
        } else if num == 117 {
            assert(Syscall::Setresuid.spec_number() == num);
        } else if num == 118 {
            assert(Syscall::Getresuid.spec_number() == num);
        } else if num == 119 {
            assert(Syscall::Setresgid.spec_number() == num);
        } else if num == 120 {
            assert(Syscall::Getresgid.spec_number() == num);
        } else if num == 121 {
            assert(Syscall::Getpgid.spec_number() == num);
        } else if num == 122 {
            assert(Syscall::Setfsuid.spec_number() == num);
        } else if num == 123 {
            assert(Syscall::Setfsgid.spec_number() == num);
        } else if num == 124 {
            assert(Syscall::Getsid.spec_number() == num);
        } else if num == 125 {
            assert(Syscall::Capget.spec_number() == num);
        } else if num == 126 {
            assert(Syscall::Capset.spec_number() == num);
        } else if num == 127 {
            assert(Syscall::RtSigpending.spec_number() == num);
        }
    }

    /// Some system call has each of the numbers from 128 to 159.
    proof fn lemma_decodes_from_128(num: i32)
        requires
            128 <= num <= 159,
        ensures
            exists|s: Syscall| s.spec_number() == num,
    {
        if num == 128 {
            assert(Syscall::RtSigtimedwait.spec_number() == num);
        } else if num == 129 {
            assert(Syscall::RtSigqueueinfo.spec_number() == num);
        } else if num == 130 {
            assert(Syscall::RtSigsuspend.spec_number() == num);
        } else if num == 131 {
            assert(Syscall::Sigaltstack.spec_number() == num);
        } else if num == 132 {
            assert(Syscall::Utime.spec_number() == num);
        } else if num == 133 {
            assert(Syscall::Mknod.spec_number() == num);
        } else if num == 134 {
            assert(Syscall::Uselib.spec_number() == num);
        } else if num == 135 {
            assert(Syscall::Personality.spec_number() == num);
        } else if num == 136 {
            assert(Syscall::Ustat.spec_number() == num);
        } else if num == 137 {
            assert(Syscall::Statfs.spec_number() == num);
        } else if num == 138 {
            assert(Syscall::Fstatfs.spec_number() == num);
        } else if num == 139 {
            assert(Syscall::Sysfs.spec_number() == num);
        } else if num == 140 {
            assert(Syscall::Getpriority.spec_number() == num);
        } else if num == 141 {
            assert(Syscall::Setpriority.spec_number() == num);
        } else if num == 142 {
            assert(Syscall::SchedSetparam.spec_number() == num);
        } else if num == 143 {
            assert(Syscall::SchedGetparam.spec_number() == num);
        } else if num == 144 {
            assert(Syscall::SchedSetscheduler.spec_number() == num);
        } else if num == 145 {
            assert(Syscall::SchedGetscheduler.spec_number() == num);
        } else if num == 146 {
            assert(Syscall::SchedGetPriorityMax.spec_number() == num);
        } else if num == 147 {
            assert(Syscall::SchedGetPriorityMin.spec_number() == num);
        } else if num == 148 {
            assert(Syscall::SchedRrGetInterval.spec_number() == num);
        } else if num == 149 {
            assert(Syscall::Mlock.spec_number() == num);
        } else if num == 150 {
            assert(Syscall::Munlock.spec_number() == num);
        } else if num == 151 {
            assert(Syscall::Mlockall.spec_number() == num);
        } else if num == 152 {
            assert(Syscall::Munlockall.spec_number() == num);
        } else if num == 153 {
            assert(Syscall::Vhangup.spec_number() == num);
        } else if num == 154 {
            assert(Syscall::ModifyLdt.spec_number() == num);
        } else if num == 155 {
            assert(Syscall::PivotRoot.spec_number() == num);
        } else if num == 156 {
            assert(Syscall::Sysctl.spec_number() == num);
        } else if num == 157 {
            assert(Syscall::Prctl.spec_number() == num);
        } else if num == 158 {
            assert(Syscall::ArchPrctl.spec_number() == num);
        } else if num == 159 {
            assert(Syscall::Adjtimex.spec_number() == num);
        }
    }

    /// Some system call has each of the numbers from 160 to 191.
    proof fn lemma_decodes_from_160(num: i32)
        requires
            160 <= num <= 191,
        ensures
            exists|s: Syscall| s.spec_number() == num,
    {
        if num == 160 {
            assert(Syscall::Setrlimit.spec_number() == num);
        } else if num == 161 {
            assert(Syscall::Chroot.spec_number() == num);
        } else if num == 162 {
            assert(Syscall::Sync.spec_number() == num);
        } else if num == 163 {
            assert(Syscall::Acct.spec_number() == num);
        } else if num == 164 {
            assert(Syscall::Settimeofday.spec_number() == num);
        } else if num == 165 {
            assert(Syscall::Mount.spec_number() == num);
        } else if num == 166 {
            assert(Syscall::Umount2.spec_number() == num);
        } else if num == 167 {
            assert(Syscall::Swapon.spec_number() == num);
        } else if num == 168 {
            assert(Syscall::Swapoff.spec_number() == num);
        } else if num == 169 {
            assert(Syscall::Reboot.spec_number() == num);
        } else if num == 170 {
            assert(Syscall::Sethostname.spec_number() == num);
        } else if num == 171 {
            assert(Syscall::Setdomainname.spec_number() == num);
        } else if num == 172 {
            assert(Syscall::Iopl.spec_number() == num);
        } else if num == 173 {
            assert(Syscall::Ioperm.spec_number() == num);
        } else if num == 174 {
            assert(Syscall::CreateModule.spec_number() == num);
        } else if num == 175 {
            assert(Syscall::InitModule.spec_number() == num);
        } else if num == 176 {
            assert(Syscall::DeleteModule.spec_number() == num);
        } else if num == 177 {
            assert(Syscall::GetKernelSyms.spec_number() == num);
        } else if num == 178 {
            assert(Syscall::QueryModule.spec_number() == num);
        } else if num == 179 {
            assert(Syscall::Quotactl.spec_number() == num);
        } else if num == 180 {
            assert(Syscall::Nfsservctl.spec_number() == num);
        } else if num == 181 {
            assert(Syscall::Getpmsg.spec_number() == num);
        } else if num == 182 {
            assert(Syscall::Putpmsg.spec_number() == num);
        } else if num == 183 {
            assert(Syscall::AfsSyscall.spec_number() == num);
        } else if num == 184 {
            assert(Syscall::Tuxcall.spec_number() == num);
        } else if num == 185 {
            assert(Syscall::Security.spec_number() == num);
        } else if num == 186 {
            assert(Syscall::Gettid.spec_number() == num);
        } else if num == 187 {
            assert(Syscall::Readahead.spec_number() == num);
        } else if num == 188 {
            assert(Syscall::Setxattr.spec_number() == num);
        } else if num == 189 {
            assert(Syscall::Lsetxattr.spec_number() == num);
        } else if num == 190 {
            assert(Syscall::Fsetxattr.spec_number() == num);
        } else if num == 191 {
            assert(Syscall::Getxattr.spec_number() == num);
        }
    }

    /// Some system call has each of the numbers from 192 to 223.
    proof fn lemma_decodes_from_192(num: i32)
        requires
            192 <= num <= 223,
        ensures
            exists|s: Syscall| s.spec_number() == num,
    {
        if num == 192 {
            assert(Syscall::Lgetxattr.spec_number() == num);
        } else if num == 193 {
            assert(Syscall::Fgetxattr.spec_number() == num);
        } else if num == 194 {
            assert(Syscall::Listxattr.spec_number() == num);
        } else if num == 195 {
            assert(Syscall::Llistxattr.spec_number() == num);
        } else if num == 196 {
            assert(Syscall::Flistxattr.spec_number() == num);
        } else if num == 197 {
            assert(Syscall::Removexattr.spec_number() == num);
        } else if num == 198 {
            assert(Syscall::Lremovexattr.spec_number() == num);
        } else if num == 199 {
            assert(Syscall::Fremovexattr.spec_number() == num);
        } else if num == 200 {
            assert(Syscall::Tkill.spec_number() == num);
        } else if num == 201 {
            assert(Syscall::Time.spec_number() == num);
        } else if num == 202 {
            assert(Syscall::Futex.spec_number() == num);
        } else if num == 203 {
            assert(Syscall::SchedSetaffinity.spec_number() == num);
        } else if num == 204 {
            assert(Syscall::SchedGetaffinity.spec_number() == num);
        } else if num == 205 {
            assert(Syscall::SetThreadArea.spec_number() == num);
        } else if num == 206 {
            assert(Syscall::IoSetup.spec_number() == num);
        } else if num == 207 {
            assert(Syscall::IoDestroy.spec_number() == num);
        } else if num == 208 {
            assert(Syscall::IoGetevents.spec_number() == num);
        } else if num == 209 {
            assert(Syscall::IoSubmit.spec_number() == num);
        } else if num == 210 {
            assert(Syscall::IoCancel.spec_number() == num);
        } else if num == 211 {
            assert(Syscall::GetThreadArea.spec_number() == num);
        } else if num == 212 {
            assert(Syscall::LookupDcookie.spec_number() == num);
        } else if num == 213 {
            assert(Syscall::EpollCreate.spec_number() == num);
        } else if num == 214 {
            assert(Syscall::EpollCtlOld.spec_number() == num);
        } else if num == 215 {
            assert(Syscall::EpollWaitOld.spec_number() == num);
        } else if num == 216 {
            assert(Syscall::RemapFilePages.spec_number() == num);
        } else if num == 217 {
            assert(Syscall::Getdents64.spec_number() == num);
        } else if num == 218 {
            assert(Syscall::SetTidAddress.spec_number() == num);
        } else if num == 219 {
            assert(Syscall::RestartSyscall.spec_number() == num);
        } else if num == 220 {
            assert(Syscall::Semtimedop.spec_number() == num);
        } else if num == 221 {
            assert(Syscall::Fadvise64.spec_number() == num);
        } else if num == 222 {
            assert(Syscall::TimerCreate.spec_number() == num);
        } else if num == 223 {
            assert(Syscall::TimerSettime.spec_number() == num);
        }
    }

    /// Some system call has each of the numbers from 224 to 255.
    proof fn lemma_decodes_from_224(num: i32)
        requires
            224 <= num <= 255,
        ensures
            exists|s: Syscall| s.spec_number() == num,
    {
        if num == 224 {
            assert(Syscall::TimerGettime.spec_number() == num);
        } else if num == 225 {
            assert(Syscall::TimerGetoverrun.spec_number() == num);
        } else if num == 226 {
            assert(Syscall::TimerDelete.spec_number() == num);
        } else if num == 227 {
            assert(Syscall::ClockSettime.spec_number() == num);
        } else if num == 228 {
            assert(Syscall::ClockGettime.spec_number() == num);
        } else if num == 229 {
            assert(Syscall::ClockGetres.spec_number() == num);
        } else if num == 230 {
            assert(Syscall::ClockNanosleep.spec_number() == num);
        } else if num == 231 {
            assert(Syscall::ExitGroup.spec_number() == num);
        } else if num == 232 {
            assert(Syscall::EpollWait.spec_number() == num);
        } else if num == 233 {
            assert(Syscall::EpollCtl.spec_number() == num);
        } else if num == 234 {
            assert(Syscall::Tgkill.spec_number() == num);
        } else if num == 235 {
            assert(Syscall::Utimes.spec_number() == num);
        } else if num == 236 {
            assert(Syscall::Vserver.spec_number() == num);
        } else if num == 237 {
            assert(Syscall::Mbind.spec_number() == num);
        } else if num == 238 {
            assert(Syscall::SetMempolicy.spec_number() == num);
        } else if num == 239 {
            assert(Syscall::GetMempolicy.spec_number() == num);
        } else if num == 240 {
            assert(Syscall::MqOpen.spec_number() == num);
        } else if num == 241 {
            assert(Syscall::MqUnlink.spec_number() == num);
        } else if num == 242 {
            assert(Syscall::MqTimedsend.spec_number() == num);
        } else if num == 243 {
            assert(Syscall::MqTimedreceive.spec_number() == num);
        } else if num == 244 {
            assert(Syscall::MqNotify.spec_number() == num);
        } else if num == 245 {
            assert(Syscall::MqGetsetattr.spec_number() == num);
        } else if num == 246 {
            assert(Syscall::KexecLoad.spec_number() == num);
        } else if num == 247 {
            assert(Syscall::Waitid.spec_number() == num);
        } else if num == 248 {
            assert(Syscall::AddKey.spec_number() == num);
        } else if num == 249 {
            assert(Syscall::RequestKey.spec_number() == num);
        } else if num == 250 {
            assert(Syscall::Keyctl.spec_number() == num);
        } else if num == 251 {
            assert(Syscall::IoprioSet.spec_number() == num);
        } else if num == 252 {
            assert(Syscall::IoprioGet.spec_number() == num);
        } else if num == 253 {
            assert(Syscall::InotifyInit.spec_number() == num);
        } else if num == 254 {
            assert(Syscall::InotifyAddWatch.spec_number() == num);
        } else if num == 255 {
            assert(Syscall::InotifyRmWatch.spec_number() == num);
        }
    }

    /// Some system call has each of the numbers from 256 to 287.
    proof fn lemma_decodes_from_256(num: i32)
        requires
            256 <= num <= 287,
        ensures
            exists|s: Syscall| s.spec_number() == num,
    {
        if num == 256 {
            assert(Syscall::MigratePages.spec_number() == num);
        } else if num == 257 {
            assert(Syscall::Openat.spec_number() == num);
        } else if num == 258 {
            assert(Syscall::Mkdirat.spec_number() == num);
        } else if num == 259 {
            assert(Syscall::Mknodat.spec_number() == num);
        } else if num == 260 {
            assert(Syscall::Fchownat.spec_number() == num);
        } else if num == 261 {
            assert(Syscall::Futimesat.spec_number() == num);
        } else if num == 262 {
            assert(Syscall::Newfstatat.spec_number() == num);
        } else if num == 263 {
            assert(Syscall::Unlinkat.spec_number() == num);
        } else if num == 264 {
            assert(Syscall::Renameat.spec_number() == num);
        } else if num == 265 {
            assert(Syscall::Linkat.spec_number() == num);
        } else if num == 266 {
            assert(Syscall::Symlinkat.spec_number() == num);
        } else if num == 267 {
            assert(Syscall::Readlinkat.spec_number() == num);
        } else if num == 268 {
            assert(Syscall::Fchmodat.spec_number() == num);
        } else if num == 269 {
            assert(Syscall::Faccessat.spec_number() == num);
        } else if num == 270 {
            assert(Syscall::Pselect6.spec_number() == num);
        } else if num == 271 {
            assert(Syscall::Ppoll.spec_number() == num);
        } else if num == 272 {
            assert(Syscall::Unshare.spec_number() == num);
        } else if num == 273 {
            assert(Syscall::SetRobustList.spec_number() == num);
        } else if num == 274 {
            assert(Syscall::GetRobustList.spec_number() == num);
        } else if num == 275 {
            assert(Syscall::Splice.spec_number() == num);
        } else if num == 276 {
            assert(Syscall::Tee.spec_number() == num);
        } else if num == 277 {
            assert(Syscall::SyncFileRange.spec_number() == num);
        } else if num == 278 {
            assert(Syscall::Vmsplice.spec_number() == num);
        } else if num == 279 {
            assert(Syscall::MovePages.spec_number() == num);
        } else if num == 280 {
            assert(Syscall::Utimensat.spec_number() == num);
        } else if num == 281 {
            assert(Syscall::EpollPwait.spec_number() == num);
        } else if num == 282 {
            assert(Syscall::Signalfd.spec_number() == num);
        } else if num == 283 {
            assert(Syscall::TimerfdCreate.spec_number() == num);
        } else if num == 284 {
            assert(Syscall::Eventfd.spec_number() == num);
        } else if num == 285 {
            assert(Syscall::Fallocate.spec_number() == num);
        } else if num == 286 {
            assert(Syscall::TimerfdSettime.spec_number() == num);
        } else if num == 287 {
            assert(Syscall::TimerfdGettime.spec_number() == num);
        }
    }

    /// Some system call has each of the numbers from 288 to 319.
    proof fn lemma_decodes_from_288(num: i32)
        requires
            288 <= num <= 319,
        ensures
            exists|s: Syscall| s.spec_number() == num,
    {
        if num == 288 {
            assert(Syscall::Accept4.spec_number() == num);
        } else if num == 289 {
            assert(Syscall::Signalfd4.spec_number() == num);
        } else if num == 290 {
            assert(Syscall::Eventfd2.spec_number() == num);
        } else if num == 291 {
            assert(Syscall::EpollCreate1.spec_number() == num);
        } else if num == 292 {
            assert(Syscall::Dup3.spec_number() == num);
        } else if num == 293 {
            assert(Syscall::Pipe2.spec_number() == num);
        } else if num == 294 {
            assert(Syscall::InotifyInit1.spec_number() == num);
        } else if num == 295 {
            assert(Syscall::Preadv.spec_number() == num);
        } else if num == 296 {
            assert(Syscall::Pwritev.spec_number() == num);
        } else if num == 297 {
            assert(Syscall::RtTgsigqueueinfo.spec_number() == num);
        } else if num == 298 {
            assert(Syscall::PerfEventOpen.spec_number() == num);
        } else if num == 299 {
            assert(Syscall::Recvmmsg.spec_number() == num);
        } else if num == 300 {
            assert(Syscall::FanotifyInit.spec_number() == num);
        } else if num == 301 {
            assert(Syscall::FanotifyMark.spec_number() == num);
        } else if num == 302 {
            assert(Syscall::Prlimit64.spec_number() == num);
        } else if num == 303 {
            assert(Syscall::NameToHandleAt.spec_number() == num);
        } else if num == 304 {
            assert(Syscall::OpenByHandleAt.spec_number() == num);
        } else if num == 305 {
            assert(Syscall::ClockAdjtime.spec_number() == num);
        } else if num == 306 {
            assert(Syscall::Syncfs.spec_number() == num);
        } else if num == 307 {
            assert(Syscall::Sendmmsg.spec_number() == num);
        } else if num == 308 {
            assert(Syscall::Setns.spec_number() == num);
        } else if num == 309 {
            assert(Syscall::Getcpu.spec_number() == num);
        } else if num == 310 {
            assert(Syscall::ProcessVmReadv.spec_number() == num);
        } else if num == 311 {
            assert(Syscall::ProcessVmWritev.spec_number() == num);
        } else if num == 312 {
            assert(Syscall::Kcmp.spec_number() == num);
        } else if num == 313 {
            assert(Syscall::FinitModule.spec_number() == num);
        } else if num == 314 {
            assert(Syscall::SchedSetattr.spec_number() == num);
        } else if num == 315 {
            assert(Syscall::SchedGetattr.spec_number() == num);
        } else if num == 316 {
            assert(Syscall::Renameat2.spec_number() == num);
        } else if num == 317 {
            assert(Syscall::Seccomp.spec_number() == num);
        } else if num == 318 {
            assert(Syscall::Getrandom.spec_number() == num);
        } else if num == 319 {
            assert(Syscall::MemfdCreate.spec_number() == num);
        }
    }

    /// Some system call has each of the numbers from 320 to 334.
    proof fn lemma_decodes_from_320(num: i32)
        requires
            320 <= num <= 334,
        ensures
            exists|s: Syscall| s.spec_number() == num,
    {
        if num == 320 {
            assert(Syscall::KexecFileLoad.spec_number() == num);
        } else if num == 321 {
            assert(Syscall::Bpf.spec_number() == num);
        } else if num == 322 {
            assert(Syscall::Execveat.spec_number() == num);
        } else if num == 323 {
            assert(Syscall::Userfaultfd.spec_number() == num);
        } else if num == 324 {
            assert(Syscall::Membarrier.spec_number() == num);
        } else if num == 325 {
            assert(Syscall::Mlock2.spec_number() == num);
        } else if num == 326 {
            assert(Syscall::CopyFileRange.spec_number() == num);
        } else if num == 327 {
            assert(Syscall::Preadv2.spec_number() == num);
        } else if num == 328 {
            assert(Syscall::Pwritev2.spec_number() == num);
        } else if num == 329 {
            assert(Syscall::PkeyMprotect.spec_number() == num);
        } else if num == 330 {
            assert(Syscall::PkeyAlloc.spec_number() == num);
        } else if num == 331 {
            assert(Syscall::PkeyFree.spec_number() == num);
        } else if num == 332 {
            assert(Syscall::Statx.spec_number() == num);
        } else if num == 333 {
            assert(Syscall::IoPgetevents.spec_number() == num);
        } else if num == 334 {
            assert(Syscall::Rseq.spec_number() == num);
        }
    }

    /// Some system call has each of the numbers from 424 to 435.
    proof fn lemma_decodes_from_424(num: i32)
        requires
            424 <= num <= 435,
        ensures
            exists|s: Syscall| s.spec_number() == num,
    {
        if num == 424 {
            assert(Syscall::PidfdSendSignal.spec_number() == num);
        } else if num == 425 {
            assert(Syscall::IoUringSetup.spec_number() == num);
        } else if num == 426 {
            assert(Syscall::IoUringEnter.spec_number() == num);
        } else if num == 427 {
            assert(Syscall::IoUringRegister.spec_number() == num);
        } else if num == 428 {
            assert(Syscall::OpenTree.spec_number() == num);
        } else if num == 429 {
            assert(Syscall::MoveMount.spec_number() == num);
        } else if num == 430 {
            assert(Syscall::Fsopen.spec_number() == num);
        } else if num == 431 {
            assert(Syscall::Fsconfig.spec_number() == num);
        } else if num == 432 {
            assert(Syscall::Fsmount.spec_number() == num);
        } else if num == 433 {
            assert(Syscall::Fspick.spec_number() == num);
        } else if num == 434 {
            assert(Syscall::PidfdOpen.spec_number() == num);
        } else if num == 435 {
            assert(Syscall::Clone3.spec_number() == num);
        }
    }

    /// A number that the table knows decodes to the system call with that
    /// number.
    pub proof fn lemma_known_number_decodes(num: i32)
        requires
            Syscall::is_known(num),
        ensures
            Syscall::spec_from_number(num) is Ok,
            Syscall::spec_from_number(num)->Ok_0.spec_number() == num,
    {
        if 0 <= num <= 31 {
            Syscall::lemma_decodes_from_0(num);
        } else if 32 <= num <= 63 {
            Syscall::lemma_decodes_from_32(num);
        } else if 64 <= num <= 95 {
            Syscall::lemma_decodes_from_64(num);
        } else if 96 <= num <= 127 {
            Syscall::lemma_decodes_from_96(num);
        } else if 128 <= num <= 159 {
            Syscall::lemma_decodes_from_128(num);
        } else if 160 <= num <= 191 {
            Syscall::lemma_decodes_from_160(num);
        } else if 192 <= num <= 223 {
            Syscall::lemma_decodes_from_192(num);
        } else if 224 <= num <= 255 {
            Syscall::lemma_decodes_from_224(num);
        } else if 256 <= num <= 287 {
            Syscall::lemma_decodes_from_256(num);
        } else if 288 <= num <= 319 {
            Syscall::lemma_decodes_from_288(num);
        } else if 320 <= num <= 334 {
            Syscall::lemma_decodes_from_320(num);
        } else if 424 <= num <= 435 {
            Syscall::lemma_decodes_from_424(num);
        }
    }

    /// The kernel's name for this system call, in lower case.
    pub fn as_str(self) -> (r: &'static str)
        ensures
            r@ == self.spec_name(),
    {
        match self {
            Syscall::Read => "read",
            Syscall::Write => "write",
            Syscall::Open => "open",
            Syscall::Close => "close",
            Syscall::Stat => "stat",
            Syscall::Fstat => "fstat",
            Syscall::Lstat => "lstat",
            Syscall::Poll => "poll",
            Syscall::Lseek => "lseek",
            Syscall::Mmap => "mmap",
            Syscall::Mprotect => "mprotect",
            Syscall::Munmap => "munmap",
            Syscall::Brk => "brk",
            Syscall::RtSigaction => "rt_sigaction",
            Syscall::RtSigprocmask => "rt_sigprocmask",
            Syscall::RtSigreturn => "rt_sigreturn",
            Syscall::Ioctl => "ioctl",
            Syscall::Pread64 => "pread64",
            Syscall::Pwrite64 => "pwrite64",
            Syscall::Readv => "readv",
            Syscall::Writev => "writev",
            Syscall::Access => "access",
            Syscall::Pipe => "pipe",
            Syscall::Select => "select",
            Syscall::SchedYield => "sched_yield",
            Syscall::Mremap => "mremap",
            Syscall::Msync => "msync",
            Syscall::Mincore => "mincore",
            Syscall::Madvise => "madvise",
            Syscall::Shmget => "shmget",
            Syscall::Shmat => "shmat",
            Syscall::Shmctl => "shmctl",
            Syscall::Dup => "dup",
            Syscall::Dup2 => "dup2",
            Syscall::Pause => "pause",
            Syscall::Nanosleep => "nanosleep",
            Syscall::Getitimer => "getitimer",
            Syscall::Alarm => "alarm",
            Syscall::Setitimer => "setitimer",
            Syscall::Getpid => "getpid",
            Syscall::Sendfile => "sendfile",
            Syscall::Socket => "socket",
            Syscall::Connect => "connect",
            Syscall::Accept => "accept",
            Syscall::Sendto => "sendto",
            Syscall::Recvfrom => "recvfrom",
            Syscall::Sendmsg => "sendmsg",
            Syscall::Recvmsg => "recvmsg",
            Syscall::Shutdown => "shutdown",
            Syscall::Bind => "bind",
            Syscall::Listen => "listen",
            Syscall::Getsockname => "getsockname",
            Syscall::Getpeername => "getpeername",
            Syscall::Socketpair => "socketpair",
            Syscall::Setsockopt => "setsockopt",
            Syscall::Getsockopt => "getsockopt",
            Syscall::Clone => "clone",
            Syscall::Fork => "fork",
            Syscall::Vfork => "vfork",
            Syscall::Execve => "execve",
            Syscall::Exit => "exit",
            Syscall::Wait4 => "wait4",
            Syscall::Kill => "kill",
            Syscall::Uname => "uname",
            Syscall::Semget => "semget",
            Syscall::Semop => "semop",
            Syscall::Semctl => "semctl",
            Syscall::Shmdt => "shmdt",
            Syscall::Msgget => "msgget",
            Syscall::Msgsnd => "msgsnd",
            Syscall::Msgrcv => "msgrcv",
            Syscall::Msgctl => "msgctl",
            Syscall::Fcntl => "fcntl",
            Syscall::Flock => "flock",
            Syscall::Fsync => "fsync",
            Syscall::Fdatasync => "fdatasync",
            Syscall::Truncate => "truncate",
            Syscall::Ftruncate => "ftruncate",
            Syscall::Getdents => "getdents",
            Syscall::Getcwd => "getcwd",
            Syscall::Chdir => "chdir",
            Syscall::Fchdir => "fchdir",
            Syscall::Rename => "rename",
            Syscall::Mkdir => "mkdir",
            Syscall::Rmdir => "rmdir",
            Syscall::Creat => "creat",
            Syscall::Link => "link",
            Syscall::Unlink => "unlink",
            Syscall::Symlink => "symlink",
            Syscall::Readlink => "readlink",
            Syscall::Chmod => "chmod",
            Syscall::Fchmod => "fchmod",
            Syscall::Chown => "chown",
            Syscall::Fchown => "fchown",
            Syscall::Lchown => "lchown",
            Syscall::Umask => "umask",
            Syscall::Gettimeofday => "gettimeofday",
            Syscall::Getrlimit => "getrlimit",
            Syscall::Getrusage => "getrusage",
            Syscall::Sysinfo => "sysinfo",
            Syscall::Times => "times",
            Syscall::Ptrace => "ptrace",
            Syscall::Getuid => "getuid",
            Syscall::Syslog => "syslog",
            Syscall::Getgid => "getgid",
            Syscall::Setuid => "setuid",
            Syscall::Setgid => "setgid",
            Syscall::Geteuid => "geteuid",
            Syscall::Getegid => "getegid",
            Syscall::Setpgid => "setpgid",
            Syscall::Getppid => "getppid",
            Syscall::Getpgrp => "getpgrp",
            Syscall::Setsid => "setsid",
            Syscall::Setreuid => "setreuid",
            Syscall::Setregid => "setregid",
            Syscall::Getgroups => "getgroups",
            Syscall::Setgroups => "setgroups",
            Syscall::Setresuid => "setresuid",
            Syscall::Getresuid => "getresuid",
            Syscall::Setresgid => "setresgid",
            Syscall::Getresgid => "getresgid",
            Syscall::Getpgid => "getpgid",
            Syscall::Setfsuid => "setfsuid",
            Syscall::Setfsgid => "setfsgid",
            Syscall::Getsid => "getsid",
            Syscall::Capget => "capget",
            Syscall::Capset => "capset",
            Syscall::RtSigpending => "rt_sigpending",
            Syscall::RtSigtimedwait => "rt_sigtimedwait",
            Syscall::RtSigqueueinfo => "rt_sigqueueinfo",
            Syscall::RtSigsuspend => "rt_sigsuspend",
            Syscall::Sigaltstack => "sigaltstack",
            Syscall::Utime => "utime",
            Syscall::Mknod => "mknod",
            Syscall::Uselib => "uselib",
            Syscall::Personality => "personality",
            Syscall::Ustat => "ustat",
            Syscall::Statfs => "statfs",
            Syscall::Fstatfs => "fstatfs",
            Syscall::Sysfs => "sysfs",
            Syscall::Getpriority => "getpriority",
            Syscall::Setpriority => "setpriority",
            Syscall::SchedSetparam => "sched_setparam",
            Syscall::SchedGetparam => "sched_getparam",
            Syscall::SchedSetscheduler => "sched_setscheduler",
            Syscall::SchedGetscheduler => "sched_getscheduler",
            Syscall::SchedGetPriorityMax => "sched_get_priority_max",
            Syscall::SchedGetPriorityMin => "sched_get_priority_min",
            Syscall::SchedRrGetInterval => "sched_rr_get_interval",
            Syscall::Mlock => "mlock",
            Syscall::Munlock => "munlock",
            Syscall::Mlockall => "mlockall",
            Syscall::Munlockall => "munlockall",
            Syscall::Vhangup => "vhangup",
            Syscall::ModifyLdt => "modify_ldt",
            Syscall::PivotRoot => "pivot_root",
            Syscall::Sysctl => "_sysctl",
            Syscall::Prctl => "prctl",
            Syscall::ArchPrctl => "arch_prctl",
            Syscall::Adjtimex => "adjtimex",
            Syscall::Setrlimit => "setrlimit",
            Syscall::Chroot => "chroot",
            Syscall::Sync => "sync",
            Syscall::Acct => "acct",
            Syscall::Settimeofday => "settimeofday",
            Syscall::Mount => "mount",
            Syscall::Umount2 => "umount2",
            Syscall::Swapon => "swapon",
            Syscall::Swapoff => "swapoff",
            Syscall::Reboot => "reboot",
            Syscall::Sethostname => "sethostname",
            Syscall::Setdomainname => "setdomainname",
            Syscall::Iopl => "iopl",
            Syscall::Ioperm => "ioperm",
            Syscall::CreateModule => "create_module",
            Syscall::InitModule => "init_module",
            Syscall::DeleteModule => "delete_module",
            Syscall::GetKernelSyms => "get_kernel_syms",
            Syscall::QueryModule => "query_module",
            Syscall::Quotactl => "quotactl",
            Syscall::Nfsservctl => "nfsservctl",
            Syscall::Getpmsg => "getpmsg",
            Syscall::Putpmsg => "putpmsg",
            Syscall::AfsSyscall => "afs_syscall",
            Syscall::Tuxcall => "tuxcall",
            Syscall::Security => "security",
            Syscall::Gettid => "gettid",
            Syscall::Readahead => "readahead",
            Syscall::Setxattr => "setxattr",
            Syscall::Lsetxattr => "lsetxattr",
            Syscall::Fsetxattr => "fsetxattr",
            Syscall::Getxattr => "getxattr",
            Syscall::Lgetxattr => "lgetxattr",
            Syscall::Fgetxattr => "fgetxattr",
            Syscall::Listxattr => "listxattr",
            Syscall::Llistxattr => "llistxattr",
            Syscall::Flistxattr => "flistxattr",
            Syscall::Removexattr => "removexattr",
            Syscall::Lremovexattr => "lremovexattr",
            Syscall::Fremovexattr => "fremovexattr",
            Syscall::Tkill => "tkill",
            Syscall::Time => "time",
            Syscall::Futex => "futex",
            Syscall::SchedSetaffinity => "sched_setaffinity",
            Syscall::SchedGetaffinity => "sched_getaffinity",
            Syscall::SetThreadArea => "set_thread_area",
            Syscall::IoSetup => "io_setup",
            Syscall::IoDestroy => "io_destroy",
            Syscall::IoGetevents => "io_getevents",
            Syscall::IoSubmit => "io_submit",
            Syscall::IoCancel => "io_cancel",
            Syscall::GetThreadArea => "get_thread_area",
            Syscall::LookupDcookie => "lookup_dcookie",
            Syscall::EpollCreate => "epoll_create",
            Syscall::EpollCtlOld => "epoll_ctl_old",
            Syscall::EpollWaitOld => "epoll_wait_old",
            Syscall::RemapFilePages => "remap_file_pages",
            Syscall::Getdents64 => "getdents64",
            Syscall::SetTidAddress => "set_tid_address",
            Syscall::RestartSyscall => "restart_syscall",
            Syscall::Semtimedop => "semtimedop",
            Syscall::Fadvise64 => "fadvise64",
            Syscall::TimerCreate => "timer_create",
            Syscall::TimerSettime => "timer_settime",
            Syscall::TimerGettime => "timer_gettime",
            Syscall::TimerGetoverrun => "timer_getoverrun",
            Syscall::TimerDelete => "timer_delete",
            Syscall::ClockSettime => "clock_settime",
            Syscall::ClockGettime => "clock_gettime",
            Syscall::ClockGetres => "clock_getres",
            Syscall::ClockNanosleep => "clock_nanosleep",
            Syscall::ExitGroup => "exit_group",
            Syscall::EpollWait => "epoll_wait",
            Syscall::EpollCtl => "epoll_ctl",
            Syscall::Tgkill => "tgkill",
            Syscall::Utimes => "utimes",
            Syscall::Vserver => "vserver",
            Syscall::Mbind => "mbind",
            Syscall::SetMempolicy => "set_mempolicy",
            Syscall::GetMempolicy => "get_mempolicy",
            Syscall::MqOpen => "mq_open",
            Syscall::MqUnlink => "mq_unlink",
            Syscall::MqTimedsend => "mq_timedsend",
            Syscall::MqTimedreceive => "mq_timedreceive",
            Syscall::MqNotify => "mq_notify",
            Syscall::MqGetsetattr => "mq_getsetattr",
            Syscall::KexecLoad => "kexec_load",
            Syscall::Waitid => "waitid",
            Syscall::AddKey => "add_key",
            Syscall::RequestKey => "request_key",
            Syscall::Keyctl => "keyctl",
            Syscall::IoprioSet => "ioprio_set",
            Syscall::IoprioGet => "ioprio_get",
            Syscall::InotifyInit => "inotify_init",
            Syscall::InotifyAddWatch => "inotify_add_watch",
            Syscall::InotifyRmWatch => "inotify_rm_watch",
            Syscall::MigratePages => "migrate_pages",
            Syscall::Openat => "openat",
            Syscall::Mkdirat => "mkdirat",
            Syscall::Mknodat => "mknodat",
            Syscall::Fchownat => "fchownat",
            Syscall::Futimesat => "futimesat",
            Syscall::Newfstatat => "newfstatat",
            Syscall::Unlinkat => "unlinkat",
            Syscall::Renameat => "renameat",
            Syscall::Linkat => "linkat",
            Syscall::Symlinkat => "symlinkat",
            Syscall::Readlinkat => "readlinkat",
            Syscall::Fchmodat => "fchmodat",
            Syscall::Faccessat => "faccessat",
            Syscall::Pselect6 => "pselect6",
            Syscall::Ppoll => "ppoll",
            Syscall::Unshare => "unshare",
            Syscall::SetRobustList => "set_robust_list",
            Syscall::GetRobustList => "get_robust_list",
            Syscall::Splice => "splice",
            Syscall::Tee => "tee",
            Syscall::SyncFileRange => "sync_file_range",
            Syscall::Vmsplice => "vmsplice",
            Syscall::MovePages => "move_pages",
            Syscall::Utimensat => "utimensat",
            Syscall::EpollPwait => "epoll_pwait",
            Syscall::Signalfd => "signalfd",
            Syscall::TimerfdCreate => "timerfd_create",
            Syscall::Eventfd => "eventfd",
            Syscall::Fallocate => "fallocate",
            Syscall::TimerfdSettime => "timerfd_settime",
            Syscall::TimerfdGettime => "timerfd_gettime",
            Syscall::Accept4 => "accept4",
            Syscall::Signalfd4 => "signalfd4",
            Syscall::Eventfd2 => "eventfd2",
            Syscall::EpollCreate1 => "epoll_create1",
            Syscall::Dup3 => "dup3",
            Syscall::Pipe2 => "pipe2",
            Syscall::InotifyInit1 => "inotify_init1",
            Syscall::Preadv => "preadv",
            Syscall::Pwritev => "pwritev",
            Syscall::RtTgsigqueueinfo => "rt_tgsigqueueinfo",
            Syscall::PerfEventOpen => "perf_event_open",
            Syscall::Recvmmsg => "recvmmsg",
            Syscall::FanotifyInit => "fanotify_init",
            Syscall::FanotifyMark => "fanotify_mark",
            Syscall::Prlimit64 => "prlimit64",
            Syscall::NameToHandleAt => "name_to_handle_at",
            Syscall::OpenByHandleAt => "open_by_handle_at",
            Syscall::ClockAdjtime => "clock_adjtime",
            Syscall::Syncfs => "syncfs",
            Syscall::Sendmmsg => "sendmmsg",
            Syscall::Setns => "setns",
            Syscall::Getcpu => "getcpu",
            Syscall::ProcessVmReadv => "process_vm_readv",
            Syscall::ProcessVmWritev => "process_vm_writev",
            Syscall::Kcmp => "kcmp",
            Syscall::FinitModule => "finit_module",
            Syscall::SchedSetattr => "sched_setattr",
            Syscall::SchedGetattr => "sched_getattr",
            Syscall::Renameat2 => "renameat2",
            Syscall::Seccomp => "seccomp",
            Syscall::Getrandom => "getrandom",
            Syscall::MemfdCreate => "memfd_create",
            Syscall::KexecFileLoad => "kexec_file_load",
            Syscall::Bpf => "bpf",
            Syscall::Execveat => "execveat",
            Syscall::Userfaultfd => "userfaultfd",
            Syscall::Membarrier => "membarrier",
            Syscall::Mlock2 => "mlock2",
            Syscall::CopyFileRange => "copy_file_range",
            Syscall::Preadv2 => "preadv2",
            Syscall::Pwritev2 => "pwritev2",
            Syscall::PkeyMprotect => "pkey_mprotect",
            Syscall::PkeyAlloc => "pkey_alloc",
            Syscall::PkeyFree => "pkey_free",
            Syscall::Statx => "statx",
            Syscall::IoPgetevents => "io_pgetevents",
            Syscall::Rseq => "rseq",
            Syscall::PidfdSendSignal => "pidfd_send_signal",
            Syscall::IoUringSetup => "io_uring_setup",
            Syscall::IoUringEnter => "io_uring_enter",
            Syscall::IoUringRegister => "io_uring_register",
            Syscall::OpenTree => "open_tree",
            Syscall::MoveMount => "move_mount",
            Syscall::Fsopen => "fsopen",
            Syscall::Fsconfig => "fsconfig",
            Syscall::Fsmount => "fsmount",
            Syscall::Fspick => "fspick",
            Syscall::PidfdOpen => "pidfd_open",
            Syscall::Clone3 => "clone3",
        }
    }

    /// Distinct system calls have distinct numbers.
    pub proof fn lemma_number_injective(a: Syscall, b: Syscall)
        requires
            a.spec_number() == b.spec_number(),
        ensures
            a == b,
    {
    }

    /// The number of every system call is one that the table knows.
    pub proof fn lemma_number_is_known(s: Syscall)
        ensures
            Syscall::is_known(s.spec_number()),
    {
    }
}

impl TryFrom<i32> for Syscall {
    type Error = SeccompError;

    fn try_from(num: i32) -> (r: Result<Self, SeccompError>) {
        Syscall::from_number(num)
    }
}

impl TryFromSpecImpl<i32> for Syscall {
    open spec fn obeys_try_from_spec() -> bool {
        true
    }

    open spec fn try_from_spec(num: i32) -> Result<Self, SeccompError> {
        Syscall::spec_from_number(num)
    }
}

} // verus!
