//! Per-architecture syscall data: the x86_64 table of syscall names and the
//! spec of which numeric ids carry a syscall.
//!
//! Valid ids form two contiguous blocks, `0..=334` and `424..=450`; the ids in
//! between are holes with no syscall behind them.

use vstd::prelude::*;

verus! {

/// True when `id` is the number of a syscall that exists on this architecture.
pub open spec fn is_valid_id(id: int) -> bool {
    (0 <= id && id <= 334) || (424 <= id && id <= 450)
}

/// The name of the syscall with the given id, as a sequence of characters;
/// empty for ids that are not valid.
pub open spec fn sysno_name_seq(id: int) -> Seq<char> {
    if 0 <= id && id < 120 {
        sysno_name_seq_a(id)
    } else if 120 <= id && id < 240 {
        sysno_name_seq_b(id)
    } else if 240 <= id && id < 335 {
        sysno_name_seq_c(id)
    } else if 424 <= id && id < 451 {
        sysno_name_seq_d(id)
    } else {
        Seq::empty()
    }
}

pub open spec fn sysno_name_seq_a(id: int) -> Seq<char> {
    if id == 0 {
        "read"@
    } else if id == 1 {
        "write"@
    } else if id == 2 {
        "open"@
    } else if id == 3 {
        "close"@
    } else if id == 4 {
        "stat"@
    } else if id == 5 {
        "fstat"@
    } else if id == 6 {
        "lstat"@
    } else if id == 7 {
        "poll"@
    } else if id == 8 {
        "lseek"@
    } else if id == 9 {
        "mmap"@
    } else if id == 10 {
        "mprotect"@
    } else if id == 11 {
        "munmap"@
    } else if id == 12 {
        "brk"@
    } else if id == 13 {
        "rt_sigaction"@
    } else if id == 14 {
        "rt_sigprocmask"@
    } else if id == 15 {
        "rt_sigreturn"@
    } else if id == 16 {
        "ioctl"@
    } else if id == 17 {
        "pread64"@
    } else if id == 18 {
        "pwrite64"@
    } else if id == 19 {
        "readv"@
    } else if id == 20 {
        "writev"@
    } else if id == 21 {
        "access"@
    } else if id == 22 {
        "pipe"@
    } else if id == 23 {
        "select"@
    } else if id == 24 {
        "sched_yield"@
    } else if id == 25 {
        "mremap"@
    } else if id == 26 {
        "msync"@
    } else if id == 27 {
        "mincore"@
    } else if id == 28 {
        "madvise"@
    } else if id == 29 {
        "shmget"@
    } else if id == 30 {
        "shmat"@
    } else if id == 31 {
        "shmctl"@
    } else if id == 32 {
        "dup"@
    } else if id == 33 {
        "dup2"@
    } else if id == 34 {
        "pause"@
    } else if id == 35 {
        "nanosleep"@
    } else if id == 36 {
        "getitimer"@
    } else if id == 37 {
        "alarm"@
    } else if id == 38 {
        "setitimer"@
    } else if id == 39 {
        "getpid"@
    } else if id == 40 {
        "sendfile"@
    } else if id == 41 {
        "socket"@
    } else if id == 42 {
        "connect"@
    } else if id == 43 {
        "accept"@
    } else if id == 44 {
        "sendto"@
    } else if id == 45 {
        "recvfrom"@
    } else if id == 46 {
        "sendmsg"@
    } else if id == 47 {
        "recvmsg"@
    } else if id == 48 {
        "shutdown"@
    } else if id == 49 {
        "bind"@
    } else if id == 50 {
        "listen"@
    } else if id == 51 {
        "getsockname"@
    } else if id == 52 {
        "getpeername"@
    } else if id == 53 {
        "socketpair"@
    } else if id == 54 {
        "setsockopt"@
    } else if id == 55 {
        "getsockopt"@
    } else if id == 56 {
        "clone"@
    } else if id == 57 {
        "fork"@
    } else if id == 58 {
        "vfork"@
    } else if id == 59 {
        "execve"@
    } else if id == 60 {
        "exit"@
    } else if id == 61 {
        "wait4"@
    } else if id == 62 {
        "kill"@
    } else if id == 63 {
        "uname"@
    } else if id == 64 {
        "semget"@
    } else if id == 65 {
        "semop"@
    } else if id == 66 {
        "semctl"@
    } else if id == 67 {
        "shmdt"@
    } else if id == 68 {
        "msgget"@
    } else if id == 69 {
        "msgsnd"@
    } else if id == 70 {
        "msgrcv"@
    } else if id == 71 {
        "msgctl"@
    } else if id == 72 {
        "fcntl"@
    } else if id == 73 {
        "flock"@
    } else if id == 74 {
        "fsync"@
    } else if id == 75 {
        "fdatasync"@
    } else if id == 76 {
        "truncate"@
    } else if id == 77 {
        "ftruncate"@
    } else if id == 78 {
        "getdents"@
    } else if id == 79 {
        "getcwd"@
    } else if id == 80 {
        "chdir"@
    } else if id == 81 {
        "fchdir"@
    } else if id == 82 {
        "rename"@
    } else if id == 83 {
        "mkdir"@
    } else if id == 84 {
        "rmdir"@
    } else if id == 85 {
        "creat"@
    } else if id == 86 {
        "link"@
    } else if id == 87 {
        "unlink"@
    } else if id == 88 {
        "symlink"@
    } else if id == 89 {
        "readlink"@
    } else if id == 90 {
        "chmod"@
    } else if id == 91 {
        "fchmod"@
    } else if id == 92 {
        "chown"@
    } else if id == 93 {
        "fchown"@
    } else if id == 94 {
        "lchown"@
    } else if id == 95 {
        "umask"@
    } else if id == 96 {
        "gettimeofday"@
    } else if id == 97 {
        "getrlimit"@
    } else if id == 98 {
        "getrusage"@
    } else if id == 99 {
        "sysinfo"@
    } else if id == 100 {
        "times"@
    } else if id == 101 {
        "ptrace"@
    } else if id == 102 {
        "getuid"@
    } else if id == 103 {
        "syslog"@
    } else if id == 104 {
        "getgid"@
    } else if id == 105 {
        "setuid"@
    } else if id == 106 {
        "setgid"@
    } else if id == 107 {
        "geteuid"@
    } else if id == 108 {
        "getegid"@
    } else if id == 109 {
        "setpgid"@
    } else if id == 110 {
        "getppid"@
    } else if id == 111 {
        "getpgrp"@
    } else if id == 112 {
        "setsid"@
    } else if id == 113 {
        "setreuid"@
    } else if id == 114 {
        "setregid"@
    } else if id == 115 {
        "getgroups"@
    } else if id == 116 {
        "setgroups"@
    } else if id == 117 {
        "setresuid"@
    } else if id == 118 {
        "getresuid"@
    } else if id == 119 {
        "setresgid"@
    } else {
        Seq::empty()
    }
}

pub open spec fn sysno_name_seq_b(id: int) -> Seq<char> {
    if id == 120 {
        "getresgid"@
    } else if id == 121 {
        "getpgid"@
    } else if id == 122 {
        "setfsuid"@
    } else if id == 123 {
        "setfsgid"@
    } else if id == 124 {
        "getsid"@
    } else if id == 125 {
        "capget"@
    } else if id == 126 {
        "capset"@
    } else if id == 127 {
        "rt_sigpending"@
    } else if id == 128 {
        "rt_sigtimedwait"@
    } else if id == 129 {
        "rt_sigqueueinfo"@
    } else if id == 130 {
        "rt_sigsuspend"@
    } else if id == 131 {
        "sigaltstack"@
    } else if id == 132 {
        "utime"@
    } else if id == 133 {
        "mknod"@
    } else if id == 134 {
        "uselib"@
    } else if id == 135 {
        "personality"@
    } else if id == 136 {
        "ustat"@
    } else if id == 137 {
        "statfs"@
    } else if id == 138 {
        "fstatfs"@
    } else if id == 139 {
        "sysfs"@
    } else if id == 140 {
        "getpriority"@
    } else if id == 141 {
        "setpriority"@
    } else if id == 142 {
        "sched_setparam"@
    } else if id == 143 {
        "sched_getparam"@
    } else if id == 144 {
        "sched_setscheduler"@
    } else if id == 145 {
        "sched_getscheduler"@
    } else if id == 146 {
        "sched_get_priority_max"@
    } else if id == 147 {
        "sched_get_priority_min"@
    } else if id == 148 {
        "sched_rr_get_interval"@
    } else if id == 149 {
        "mlock"@
    } else if id == 150 {
        "munlock"@
    } else if id == 151 {
        "mlockall"@
    } else if id == 152 {
        "munlockall"@
    } else if id == 153 {
        "vhangup"@
    } else if id == 154 {
        "modify_ldt"@
    } else if id == 155 {
        "pivot_root"@
    } else if id == 156 {
        "_sysctl"@
    } else if id == 157 {
        "prctl"@
    } else if id == 158 {
        "arch_prctl"@
    } else if id == 159 {
        "adjtimex"@
    } else if id == 160 {
        "setrlimit"@
    } else if id == 161 {
        "chroot"@
    } else if id == 162 {
        "sync"@
    } else if id == 163 {
        "acct"@
    } else if id == 164 {
        "settimeofday"@
    } else if id == 165 {
        "mount"@
    } else if id == 166 {
        "umount2"@
    } else if id == 167 {
        "swapon"@
    } else if id == 168 {
        "swapoff"@
    } else if id == 169 {
        "reboot"@
    } else if id == 170 {
        "sethostname"@
    } else if id == 171 {
        "setdomainname"@
    } else if id == 172 {
        "iopl"@
    } else if id == 173 {
        "ioperm"@
    } else if id == 174 {
        "create_module"@
    } else if id == 175 {
        "init_module"@
    } else if id == 176 {
        "delete_module"@
    } else if id == 177 {
        "get_kernel_syms"@
    } else if id == 178 {
        "query_module"@
    } else if id == 179 {
        "quotactl"@
    } else if id == 180 {
        "nfsservctl"@
    } else if id == 181 {
        "getpmsg"@
    } else if id == 182 {
        "putpmsg"@
    } else if id == 183 {
        "afs_syscall"@
    } else if id == 184 {
        "tuxcall"@
    } else if id == 185 {
        "security"@
    } else if id == 186 {
        "gettid"@
    } else if id == 187 {
        "readahead"@
    } else if id == 188 {
        "setxattr"@
    } else if id == 189 {
        "lsetxattr"@
    } else if id == 190 {
        "fsetxattr"@
    } else if id == 191 {
        "getxattr"@
    } else if id == 192 {
        "lgetxattr"@
    } else if id == 193 {
        "fgetxattr"@
    } else if id == 194 {
        "listxattr"@
    } else if id == 195 {
        "llistxattr"@
    } else if id == 196 {
        "flistxattr"@
    } else if id == 197 {
        "removexattr"@
    } else if id == 198 {
        "lremovexattr"@
    } else if id == 199 {
        "fremovexattr"@
    } else if id == 200 {
        "tkill"@
    } else if id == 201 {
        "time"@
    } else if id == 202 {
        "futex"@
    } else if id == 203 {
        "sched_setaffinity"@
    } else if id == 204 {
        "sched_getaffinity"@
    } else if id == 205 {
        "set_thread_area"@
    } else if id == 206 {
        "io_setup"@
    } else if id == 207 {
        "io_destroy"@
    } else if id == 208 {
        "io_getevents"@
    } else if id == 209 {
        "io_submit"@
    } else if id == 210 {
        "io_cancel"@
    } else if id == 211 {
        "get_thread_area"@
    } else if id == 212 {
        "lookup_dcookie"@
    } else if id == 213 {
        "epoll_create"@
    } else if id == 214 {
        "epoll_ctl_old"@
    } else if id == 215 {
        "epoll_wait_old"@
    } else if id == 216 {
        "remap_file_pages"@
    } else if id == 217 {
        "getdents64"@
    } else if id == 218 {
        "set_tid_address"@
    } else if id == 219 {
        "restart_syscall"@
    } else if id == 220 {
        "semtimedop"@
    } else if id == 221 {
        "fadvise64"@
    } else if id == 222 {
        "timer_create"@
    } else if id == 223 {
        "timer_settime"@
    } else if id == 224 {
        "timer_gettime"@
    } else if id == 225 {
        "timer_getoverrun"@
    } else if id == 226 {
        "timer_delete"@
    } else if id == 227 {
        "clock_settime"@
    } else if id == 228 {
        "clock_gettime"@
    } else if id == 229 {
        "clock_getres"@
    } else if id == 230 {
        "clock_nanosleep"@
    } else if id == 231 {
        "exit_group"@
    } else if id == 232 {
        "epoll_wait"@
    } else if id == 233 {
        "epoll_ctl"@
    } else if id == 234 {
        "tgkill"@
    } else if id == 235 {
        "utimes"@
    } else if id == 236 {
        "vserver"@
    } else if id == 237 {
        "mbind"@
    } else if id == 238 {
        "set_mempolicy"@
    } else if id == 239 {
        "get_mempolicy"@
    } else {
        Seq::empty()
    }
}

pub open spec fn sysno_name_seq_c(id: int) -> Seq<char> {
    if id == 240 {
        "mq_open"@
    } else if id == 241 {
        "mq_unlink"@
    } else if id == 242 {
        "mq_timedsend"@
    } else if id == 243 {
        "mq_timedreceive"@
    } else if id == 244 {
        "mq_notify"@
    } else if id == 245 {
        "mq_getsetattr"@
    } else if id == 246 {
        "kexec_load"@
    } else if id == 247 {
        "waitid"@
    } else if id == 248 {
        "add_key"@
    } else if id == 249 {
        "request_key"@
    } else if id == 250 {
        "keyctl"@
    } else if id == 251 {
        "ioprio_set"@
    } else if id == 252 {
        "ioprio_get"@
    } else if id == 253 {
        "inotify_init"@
    } else if id == 254 {
        "inotify_add_watch"@
    } else if id == 255 {
        "inotify_rm_watch"@
    } else if id == 256 {
        "migrate_pages"@
    } else if id == 257 {
        "openat"@
    } else if id == 258 {
        "mkdirat"@
    } else if id == 259 {
        "mknodat"@
    } else if id == 260 {
        "fchownat"@
    } else if id == 261 {
        "futimesat"@
    } else if id == 262 {
        "newfstatat"@
    } else if id == 263 {
        "unlinkat"@
    } else if id == 264 {
        "renameat"@
    } else if id == 265 {
        "linkat"@
    } else if id == 266 {
        "symlinkat"@
    } else if id == 267 {
        "readlinkat"@
    } else if id == 268 {
        "fchmodat"@
    } else if id == 269 {
        "faccessat"@
    } else if id == 270 {
        "pselect6"@
    } else if id == 271 {
        "ppoll"@
    } else if id == 272 {
        "unshare"@
    } else if id == 273 {
        "set_robust_list"@
    } else if id == 274 {
        "get_robust_list"@
    } else if id == 275 {
        "splice"@
    } else if id == 276 {
        "tee"@
    } else if id == 277 {
        "sync_file_range"@
    } else if id == 278 {
        "vmsplice"@
    } else if id == 279 {
        "move_pages"@
    } else if id == 280 {
        "utimensat"@
    } else if id == 281 {
        "epoll_pwait"@
    } else if id == 282 {
        "signalfd"@
    } else if id == 283 {
        "timerfd_create"@
    } else if id == 284 {
        "eventfd"@
    } else if id == 285 {
        "fallocate"@
    } else if id == 286 {
        "timerfd_settime"@
    } else if id == 287 {
        "timerfd_gettime"@
    } else if id == 288 {
        "accept4"@
    } else if id == 289 {
        "signalfd4"@
    } else if id == 290 {
        "eventfd2"@
    } else if id == 291 {
        "epoll_create1"@
    } else if id == 292 {
        "dup3"@
    } else if id == 293 {
        "pipe2"@
    } else if id == 294 {
        "inotify_init1"@
    } else if id == 295 {
        "preadv"@
    } else if id == 296 {
        "pwritev"@
    } else if id == 297 {
        "rt_tgsigqueueinfo"@
    } else if id == 298 {
        "perf_event_open"@
    } else if id == 299 {
        "recvmmsg"@
    } else if id == 300 {
        "fanotify_init"@
    } else if id == 301 {
        "fanotify_mark"@
    } else if id == 302 {
        "prlimit64"@
    } else if id == 303 {
        "name_to_handle_at"@
    } else if id == 304 {
        "open_by_handle_at"@
    } else if id == 305 {
        "clock_adjtime"@
    } else if id == 306 {
        "syncfs"@
    } else if id == 307 {
        "sendmmsg"@
    } else if id == 308 {
        "setns"@
    } else if id == 309 {
        "getcpu"@
    } else if id == 310 {
        "process_vm_readv"@
    } else if id == 311 {
        "process_vm_writev"@
    } else if id == 312 {
        "kcmp"@
    } else if id == 313 {
        "finit_module"@
    } else if id == 314 {
        "sched_setattr"@
    } else if id == 315 {
        "sched_getattr"@
    } else if id == 316 {
        "renameat2"@
    } else if id == 317 {
        "seccomp"@
    } else if id == 318 {
        "getrandom"@
    } else if id == 319 {
        "memfd_create"@
    } else if id == 320 {
        "kexec_file_load"@
    } else if id == 321 {
        "bpf"@
    } else if id == 322 {
        "execveat"@
    } else if id == 323 {
        "userfaultfd"@
    } else if id == 324 {
        "membarrier"@
    } else if id == 325 {
        "mlock2"@
    } else if id == 326 {
        "copy_file_range"@
    } else if id == 327 {
        "preadv2"@
    } else if id == 328 {
        "pwritev2"@
    } else if id == 329 {
        "pkey_mprotect"@
    } else if id == 330 {
        "pkey_alloc"@
    } else if id == 331 {
        "pkey_free"@
    } else if id == 332 {
        "statx"@
    } else if id == 333 {
        "io_pgetevents"@
    } else if id == 334 {
        "rseq"@
    } else {
        Seq::empty()
    }
}

pub open spec fn sysno_name_seq_d(id: int) -> Seq<char> {
    if id == 424 {
        "pidfd_send_signal"@
    } else if id == 425 {
        "io_uring_setup"@
    } else if id == 426 {
        "io_uring_enter"@
    } else if id == 427 {
        "io_uring_register"@
    } else if id == 428 {
        "open_tree"@
    } else if id == 429 {
        "move_mount"@
    } else if id == 430 {
        "fsopen"@
    } else if id == 431 {
        "fsconfig"@
    } else if id == 432 {
        "fsmount"@
    } else if id == 433 {
        "fspick"@
    } else if id == 434 {
        "pidfd_open"@
    } else if id == 435 {
        "clone3"@
    } else if id == 436 {
        "close_range"@
    } else if id == 437 {
        "openat2"@
    } else if id == 438 {
        "pidfd_getfd"@
    } else if id == 439 {
        "faccessat2"@
    } else if id == 440 {
        "process_madvise"@
    } else if id == 441 {
        "epoll_pwait2"@
    } else if id == 442 {
        "mount_setattr"@
    } else if id == 443 {
        "quotactl_fd"@
    } else if id == 444 {
        "landlock_create_ruleset"@
    } else if id == 445 {
        "landlock_add_rule"@
    } else if id == 446 {
        "landlock_restrict_self"@
    } else if id == 447 {
        "memfd_secret"@
    } else if id == 448 {
        "process_mrelease"@
    } else if id == 449 {
        "futex_waitv"@
    } else if id == 450 {
        "set_mempolicy_home_node"@
    } else {
        Seq::empty()
    }
}

/// Looks up the static name of a valid syscall id.
pub(crate) fn sysno_name_str(id: u32) -> (r: &'static str)
    requires
        is_valid_id(id as int),
    ensures
        r@ == sysno_name_seq(id as int),
        r@.len() > 0,
{
    if id < 120 {
        sysno_name_str_a(id)
    } else if id < 240 {
        sysno_name_str_b(id)
    } else if id < 335 {
        sysno_name_str_c(id)
    } else {
        sysno_name_str_d(id)
    }
}

fn sysno_name_str_a(id: u32) -> (r: &'static str)
    requires
        0 <= id < 120,
    ensures
        r@ == sysno_name_seq_a(id as int),
        r@.len() > 0,
{
    match id {
        0 => {
            proof { reveal_strlit("read"); }
            "read"
        },
        1 => {
            proof { reveal_strlit("write"); }
            "write"
        },
        2 => {
            proof { reveal_strlit("open"); }
            "open"
        },
        3 => {
            proof { reveal_strlit("close"); }
            "close"
        },
        4 => {
            proof { reveal_strlit("stat"); }
            "stat"
        },
        5 => {
            proof { reveal_strlit("fstat"); }
            "fstat"
        },
        6 => {
            proof { reveal_strlit("lstat"); }
            "lstat"
        },
        7 => {
            proof { reveal_strlit("poll"); }
            "poll"
        },
        8 => {
            proof { reveal_strlit("lseek"); }
            "lseek"
        },
        9 => {
            proof { reveal_strlit("mmap"); }
            "mmap"
        },
        10 => {
            proof { reveal_strlit("mprotect"); }
            "mprotect"
        },
        11 => {
            proof { reveal_strlit("munmap"); }
            "munmap"
        },
        12 => {
            proof { reveal_strlit("brk"); }
            "brk"
        },
        13 => {
            proof { reveal_strlit("rt_sigaction"); }
            "rt_sigaction"
        },
        14 => {
            proof { reveal_strlit("rt_sigprocmask"); }
            "rt_sigprocmask"
        },
        15 => {
            proof { reveal_strlit("rt_sigreturn"); }
            "rt_sigreturn"
        },
        16 => {
            proof { reveal_strlit("ioctl"); }
            "ioctl"
        },
        17 => {
            proof { reveal_strlit("pread64"); }
            "pread64"
        },
        18 => {
            proof { reveal_strlit("pwrite64"); }
            "pwrite64"
        },
        19 => {
            proof { reveal_strlit("readv"); }
            "readv"
        },
        20 => {
            proof { reveal_strlit("writev"); }
            "writev"
        },
        21 => {
            proof { reveal_strlit("access"); }
            "access"
        },
        22 => {
            proof { reveal_strlit("pipe"); }
            "pipe"
        },
        23 => {
            proof { reveal_strlit("select"); }
            "select"
        },
        24 => {
            proof { reveal_strlit("sched_yield"); }
            "sched_yield"
        },
        25 => {
            proof { reveal_strlit("mremap"); }
            "mremap"
        },
        26 => {
            proof { reveal_strlit("msync"); }
            "msync"
        },
        27 => {
            proof { reveal_strlit("mincore"); }
            "mincore"
        },
        28 => {
            proof { reveal_strlit("madvise"); }
            "madvise"
        },
        29 => {
            proof { reveal_strlit("shmget"); }
            "shmget"
        },
        30 => {
            proof { reveal_strlit("shmat"); }
            "shmat"
        },
        31 => {
            proof { reveal_strlit("shmctl"); }
            "shmctl"
        },
        32 => {
            proof { reveal_strlit("dup"); }
            "dup"
        },
        33 => {
            proof { reveal_strlit("dup2"); }
            "dup2"
        },
        34 => {
            proof { reveal_strlit("pause"); }
            "pause"
        },
        35 => {
            proof { reveal_strlit("nanosleep"); }
            "nanosleep"
        },
        36 => {
            proof { reveal_strlit("getitimer"); }
            "getitimer"
        },
        37 => {
            proof { reveal_strlit("alarm"); }
            "alarm"
        },
        38 => {
            proof { reveal_strlit("setitimer"); }
            "setitimer"
        },
        39 => {
            proof { reveal_strlit("getpid"); }
            "getpid"
        },
        40 => {
            proof { reveal_strlit("sendfile"); }
            "sendfile"
        },
        41 => {
            proof { reveal_strlit("socket"); }
            "socket"
        },
        42 => {
            proof { reveal_strlit("connect"); }
            "connect"
        },
        43 => {
            proof { reveal_strlit("accept"); }
            "accept"
        },
        44 => {
            proof { reveal_strlit("sendto"); }
            "sendto"
        },
        45 => {
            proof { reveal_strlit("recvfrom"); }
            "recvfrom"
        },
        46 => {
            proof { reveal_strlit("sendmsg"); }
            "sendmsg"
        },
        47 => {
            proof { reveal_strlit("recvmsg"); }
            "recvmsg"
        },
        48 => {
            proof { reveal_strlit("shutdown"); }
            "shutdown"
        },
        49 => {
            proof { reveal_strlit("bind"); }
            "bind"
        },
        50 => {
            proof { reveal_strlit("listen"); }
            "listen"
        },
        51 => {
            proof { reveal_strlit("getsockname"); }
            "getsockname"
        },
        52 => {
            proof { reveal_strlit("getpeername"); }
            "getpeername"
        },
        53 => {
            proof { reveal_strlit("socketpair"); }
            "socketpair"
        },
        54 => {
            proof { reveal_strlit("setsockopt"); }
            "setsockopt"
        },
        55 => {
            proof { reveal_strlit("getsockopt"); }
            "getsockopt"
        },
        56 => {
            proof { reveal_strlit("clone"); }
            "clone"
        },
        57 => {
            proof { reveal_strlit("fork"); }
            "fork"
        },
        58 => {
            proof { reveal_strlit("vfork"); }
            "vfork"
        },
        59 => {
            proof { reveal_strlit("execve"); }
            "execve"
        },
        60 => {
            proof { reveal_strlit("exit"); }
            "exit"
        },
        61 => {
            proof { reveal_strlit("wait4"); }
            "wait4"
        },
        62 => {
            proof { reveal_strlit("kill"); }
            "kill"
        },
        63 => {
            proof { reveal_strlit("uname"); }
            "uname"
        },
        64 => {
            proof { reveal_strlit("semget"); }
            "semget"
        },
        65 => {
            proof { reveal_strlit("semop"); }
            "semop"
        },
        66 => {
            proof { reveal_strlit("semctl"); }
            "semctl"
        },
        67 => {
            proof { reveal_strlit("shmdt"); }
            "shmdt"
        },
        68 => {
            proof { reveal_strlit("msgget"); }
            "msgget"
        },
        69 => {
            proof { reveal_strlit("msgsnd"); }
            "msgsnd"
        },
        70 => {
            proof { reveal_strlit("msgrcv"); }
            "msgrcv"
        },
        71 => {
            proof { reveal_strlit("msgctl"); }
            "msgctl"
        },
        72 => {
            proof { reveal_strlit("fcntl"); }
            "fcntl"
        },
        73 => {
            proof { reveal_strlit("flock"); }
            "flock"
        },
        74 => {
            proof { reveal_strlit("fsync"); }
            "fsync"
        },
        75 => {
            proof { reveal_strlit("fdatasync"); }
            "fdatasync"
        },
        76 => {
            proof { reveal_strlit("truncate"); }
            "truncate"
        },
        77 => {
            proof { reveal_strlit("ftruncate"); }
            "ftruncate"
        },
        78 => {
            proof { reveal_strlit("getdents"); }
            "getdents"
        },
        79 => {
            proof { reveal_strlit("getcwd"); }
            "getcwd"
        },
        80 => {
            proof { reveal_strlit("chdir"); }
            "chdir"
        },
        81 => {
            proof { reveal_strlit("fchdir"); }
            "fchdir"
        },
        82 => {
            proof { reveal_strlit("rename"); }
            "rename"
        },
        83 => {
            proof { reveal_strlit("mkdir"); }
            "mkdir"
        },
        84 => {
            proof { reveal_strlit("rmdir"); }
            "rmdir"
        },
        85 => {
            proof { reveal_strlit("creat"); }
            "creat"
        },
        86 => {
            proof { reveal_strlit("link"); }
            "link"
        },
        87 => {
            proof { reveal_strlit("unlink"); }
            "unlink"
        },
        88 => {
            proof { reveal_strlit("symlink"); }
            "symlink"
        },
        89 => {
            proof { reveal_strlit("readlink"); }
            "readlink"
        },
        90 => {
            proof { reveal_strlit("chmod"); }
            "chmod"
        },
        91 => {
            proof { reveal_strlit("fchmod"); }
            "fchmod"
        },
        92 => {
            proof { reveal_strlit("chown"); }
            "chown"
        },
        93 => {
            proof { reveal_strlit("fchown"); }
            "fchown"
        },
        94 => {
            proof { reveal_strlit("lchown"); }
            "lchown"
        },
        95 => {
            proof { reveal_strlit("umask"); }
            "umask"
        },
        96 => {
            proof { reveal_strlit("gettimeofday"); }
            "gettimeofday"
        },
        97 => {
            proof { reveal_strlit("getrlimit"); }
            "getrlimit"
        },
        98 => {
            proof { reveal_strlit("getrusage"); }
            "getrusage"
        },
        99 => {
            proof { reveal_strlit("sysinfo"); }
            "sysinfo"
        },
        100 => {
            proof { reveal_strlit("times"); }
            "times"
        },
        101 => {
            proof { reveal_strlit("ptrace"); }
            "ptrace"
        },
        102 => {
            proof { reveal_strlit("getuid"); }
            "getuid"
        },
        103 => {
            proof { reveal_strlit("syslog"); }
            "syslog"
        },
        104 => {
            proof { reveal_strlit("getgid"); }
            "getgid"
        },
        105 => {
            proof { reveal_strlit("setuid"); }
            "setuid"
        },
        106 => {
            proof { reveal_strlit("setgid"); }
            "setgid"
        },
        107 => {
            proof { reveal_strlit("geteuid"); }
            "geteuid"
        },
        108 => {
            proof { reveal_strlit("getegid"); }
            "getegid"
        },
        109 => {
            proof { reveal_strlit("setpgid"); }
            "setpgid"
        },
        110 => {
            proof { reveal_strlit("getppid"); }
            "getppid"
        },
        111 => {
            proof { reveal_strlit("getpgrp"); }
            "getpgrp"
        },
        112 => {
            proof { reveal_strlit("setsid"); }
            "setsid"
        },
        113 => {
            proof { reveal_strlit("setreuid"); }
            "setreuid"
        },
        114 => {
            proof { reveal_strlit("setregid"); }
            "setregid"
        },
        115 => {
            proof { reveal_strlit("getgroups"); }
            "getgroups"
        },
        116 => {
            proof { reveal_strlit("setgroups"); }
            "setgroups"
        },
        117 => {
            proof { reveal_strlit("setresuid"); }
            "setresuid"
        },
        118 => {
            proof { reveal_strlit("getresuid"); }
            "getresuid"
        },
        119 => {
            proof { reveal_strlit("setresgid"); }
            "setresgid"
        },
        _ => {
            proof {
                assert(false);
            }
            ""
        },
    }
}

fn sysno_name_str_b(id: u32) -> (r: &'static str)
    requires
        120 <= id < 240,
    ensures
        r@ == sysno_name_seq_b(id as int),
        r@.len() > 0,
{
    match id {
        120 => {
            proof { reveal_strlit("getresgid"); }
            "getresgid"
        },
        121 => {
            proof { reveal_strlit("getpgid"); }
            "getpgid"
        },
        122 => {
            proof { reveal_strlit("setfsuid"); }
            "setfsuid"
        },
        123 => {
            proof { reveal_strlit("setfsgid"); }
            "setfsgid"
        },
        124 => {
            proof { reveal_strlit("getsid"); }
            "getsid"
        },
        125 => {
            proof { reveal_strlit("capget"); }
            "capget"
        },
        126 => {
            proof { reveal_strlit("capset"); }
            "capset"
        },
        127 => {
            proof { reveal_strlit("rt_sigpending"); }
            "rt_sigpending"
        },
        128 => {
            proof { reveal_strlit("rt_sigtimedwait"); }
            "rt_sigtimedwait"
        },
        129 => {
            proof { reveal_strlit("rt_sigqueueinfo"); }
            "rt_sigqueueinfo"
        },
        130 => {
            proof { reveal_strlit("rt_sigsuspend"); }
            "rt_sigsuspend"
        },
        131 => {
            proof { reveal_strlit("sigaltstack"); }
            "sigaltstack"
        },
        132 => {
            proof { reveal_strlit("utime"); }
            "utime"
        },
        133 => {
            proof { reveal_strlit("mknod"); }
            "mknod"
        },
        134 => {
            proof { reveal_strlit("uselib"); }
            "uselib"
        },
        135 => {
            proof { reveal_strlit("personality"); }
            "personality"
        },
        136 => {
            proof { reveal_strlit("ustat"); }
            "ustat"
        },
        137 => {
            proof { reveal_strlit("statfs"); }
            "statfs"
        },
        138 => {
            proof { reveal_strlit("fstatfs"); }
            "fstatfs"
        },
        139 => {
            proof { reveal_strlit("sysfs"); }
            "sysfs"
        },
        140 => {
            proof { reveal_strlit("getpriority"); }
            "getpriority"
        },
        141 => {
            proof { reveal_strlit("setpriority"); }
            "setpriority"
        },
        142 => {
            proof { reveal_strlit("sched_setparam"); }
            "sched_setparam"
        },
        143 => {
            proof { reveal_strlit("sched_getparam"); }
            "sched_getparam"
        },
        144 => {
            proof { reveal_strlit("sched_setscheduler"); }
            "sched_setscheduler"
        },
        145 => {
            proof { reveal_strlit("sched_getscheduler"); }
            "sched_getscheduler"
        },
        146 => {
            proof { reveal_strlit("sched_get_priority_max"); }
            "sched_get_priority_max"
        },
        147 => {
            proof { reveal_strlit("sched_get_priority_min"); }
            "sched_get_priority_min"
        },
        148 => {
            proof { reveal_strlit("sched_rr_get_interval"); }
            "sched_rr_get_interval"
        },
        149 => {
            proof { reveal_strlit("mlock"); }
            "mlock"
        },
        150 => {
            proof { reveal_strlit("munlock"); }
            "munlock"
        },
        151 => {
            proof { reveal_strlit("mlockall"); }
            "mlockall"
        },
        152 => {
            proof { reveal_strlit("munlockall"); }
            "munlockall"
        },
        153 => {
            proof { reveal_strlit("vhangup"); }
            "vhangup"
        },
        154 => {
            proof { reveal_strlit("modify_ldt"); }
            "modify_ldt"
        },
        155 => {
            proof { reveal_strlit("pivot_root"); }
            "pivot_root"
        },
        156 => {
            proof { reveal_strlit("_sysctl"); }
            "_sysctl"
        },
        157 => {
            proof { reveal_strlit("prctl"); }
            "prctl"
        },
        158 => {
            proof { reveal_strlit("arch_prctl"); }
            "arch_prctl"
        },
        159 => {
            proof { reveal_strlit("adjtimex"); }
            "adjtimex"
        },
        160 => {
            proof { reveal_strlit("setrlimit"); }
            "setrlimit"
        },
        161 => {
            proof { reveal_strlit("chroot"); }
            "chroot"
        },
        162 => {
            proof { reveal_strlit("sync"); }
            "sync"
        },
        163 => {
            proof { reveal_strlit("acct"); }
            "acct"
        },
        164 => {
            proof { reveal_strlit("settimeofday"); }
            "settimeofday"
        },
        165 => {
            proof { reveal_strlit("mount"); }
            "mount"
        },
        166 => {
            proof { reveal_strlit("umount2"); }
            "umount2"
        },
        167 => {
            proof { reveal_strlit("swapon"); }
            "swapon"
        },
        168 => {
            proof { reveal_strlit("swapoff"); }
            "swapoff"
        },
        169 => {
            proof { reveal_strlit("reboot"); }
            "reboot"
        },
        170 => {
            proof { reveal_strlit("sethostname"); }
            "sethostname"
        },
        171 => {
            proof { reveal_strlit("setdomainname"); }
            "setdomainname"
        },
        172 => {
            proof { reveal_strlit("iopl"); }
            "iopl"
        },
        173 => {
            proof { reveal_strlit("ioperm"); }
            "ioperm"
        },
        174 => {
            proof { reveal_strlit("create_module"); }
            "create_module"
        },
        175 => {
            proof { reveal_strlit("init_module"); }
            "init_module"
        },
        176 => {
            proof { reveal_strlit("delete_module"); }
            "delete_module"
        },
        177 => {
            proof { reveal_strlit("get_kernel_syms"); }
            "get_kernel_syms"
        },
        178 => {
            proof { reveal_strlit("query_module"); }
            "query_module"
        },
        179 => {
            proof { reveal_strlit("quotactl"); }
            "quotactl"
        },
        180 => {
            proof { reveal_strlit("nfsservctl"); }
            "nfsservctl"
        },
        181 => {
            proof { reveal_strlit("getpmsg"); }
            "getpmsg"
        },
        182 => {
            proof { reveal_strlit("putpmsg"); }
            "putpmsg"
        },
        183 => {
            proof { reveal_strlit("afs_syscall"); }
            "afs_syscall"
        },
        184 => {
            proof { reveal_strlit("tuxcall"); }
            "tuxcall"
        },
        185 => {
            proof { reveal_strlit("security"); }
            "security"
        },
        186 => {
            proof { reveal_strlit("gettid"); }
            "gettid"
        },
        187 => {
            proof { reveal_strlit("readahead"); }
            "readahead"
        },
        188 => {
            proof { reveal_strlit("setxattr"); }
            "setxattr"
        },
        189 => {
            proof { reveal_strlit("lsetxattr"); }
            "lsetxattr"
        },
        190 => {
            proof { reveal_strlit("fsetxattr"); }
            "fsetxattr"
        },
        191 => {
            proof { reveal_strlit("getxattr"); }
            "getxattr"
        },
        192 => {
            proof { reveal_strlit("lgetxattr"); }
            "lgetxattr"
        },
        193 => {
            proof { reveal_strlit("fgetxattr"); }
            "fgetxattr"
        },
        194 => {
            proof { reveal_strlit("listxattr"); }
            "listxattr"
        },
        195 => {
            proof { reveal_strlit("llistxattr"); }
            "llistxattr"
        },
        196 => {
            proof { reveal_strlit("flistxattr"); }
            "flistxattr"
        },
        197 => {
            proof { reveal_strlit("removexattr"); }
            "removexattr"
        },
        198 => {
            proof { reveal_strlit("lremovexattr"); }
            "lremovexattr"
        },
        199 => {
            proof { reveal_strlit("fremovexattr"); }
            "fremovexattr"
        },
        200 => {
            proof { reveal_strlit("tkill"); }
            "tkill"
        },
        201 => {
            proof { reveal_strlit("time"); }
            "time"
        },
        202 => {
            proof { reveal_strlit("futex"); }
            "futex"
        },
        203 => {
            proof { reveal_strlit("sched_setaffinity"); }
            "sched_setaffinity"
        },
        204 => {
            proof { reveal_strlit("sched_getaffinity"); }
            "sched_getaffinity"
        },
        205 => {
            proof { reveal_strlit("set_thread_area"); }
            "set_thread_area"
        },
        206 => {
            proof { reveal_strlit("io_setup"); }
            "io_setup"
        },
        207 => {
            proof { reveal_strlit("io_destroy"); }
            "io_destroy"
        },
        208 => {
            proof { reveal_strlit("io_getevents"); }
            "io_getevents"
        },
        209 => {
            proof { reveal_strlit("io_submit"); }
            "io_submit"
        },
        210 => {
            proof { reveal_strlit("io_cancel"); }
            "io_cancel"
        },
        211 => {
            proof { reveal_strlit("get_thread_area"); }
            "get_thread_area"
        },
        212 => {
            proof { reveal_strlit("lookup_dcookie"); }
            "lookup_dcookie"
        },
        213 => {
            proof { reveal_strlit("epoll_create"); }
            "epoll_create"
        },
        214 => {
            proof { reveal_strlit("epoll_ctl_old"); }
            "epoll_ctl_old"
        },
        215 => {
            proof { reveal_strlit("epoll_wait_old"); }
            "epoll_wait_old"
        },
        216 => {
            proof { reveal_strlit("remap_file_pages"); }
            "remap_file_pages"
        },
        217 => {
            proof { reveal_strlit("getdents64"); }
            "getdents64"
        },
        218 => {
            proof { reveal_strlit("set_tid_address"); }
            "set_tid_address"
        },
        219 => {
            proof { reveal_strlit("restart_syscall"); }
            "restart_syscall"
        },
        220 => {
            proof { reveal_strlit("semtimedop"); }
            "semtimedop"
        },
        221 => {
            proof { reveal_strlit("fadvise64"); }
            "fadvise64"
        },
        222 => {
            proof { reveal_strlit("timer_create"); }
            "timer_create"
        },
        223 => {
            proof { reveal_strlit("timer_settime"); }
            "timer_settime"
        },
        224 => {
            proof { reveal_strlit("timer_gettime"); }
            "timer_gettime"
        },
        225 => {
            proof { reveal_strlit("timer_getoverrun"); }
            "timer_getoverrun"
        },
        226 => {
            proof { reveal_strlit("timer_delete"); }
            "timer_delete"
        },
        227 => {
            proof { reveal_strlit("clock_settime"); }
            "clock_settime"
        },
        228 => {
            proof { reveal_strlit("clock_gettime"); }
            "clock_gettime"
        },
        229 => {
            proof { reveal_strlit("clock_getres"); }
            "clock_getres"
        },
        230 => {
            proof { reveal_strlit("clock_nanosleep"); }
            "clock_nanosleep"
        },
        231 => {
            proof { reveal_strlit("exit_group"); }
            "exit_group"
        },
        232 => {
            proof { reveal_strlit("epoll_wait"); }
            "epoll_wait"
        },
        233 => {
            proof { reveal_strlit("epoll_ctl"); }
            "epoll_ctl"
        },
        234 => {
            proof { reveal_strlit("tgkill"); }
            "tgkill"
        },
        235 => {
            proof { reveal_strlit("utimes"); }
            "utimes"
        },
        236 => {
            proof { reveal_strlit("vserver"); }
            "vserver"
        },
        237 => {
            proof { reveal_strlit("mbind"); }
            "mbind"
        },
        238 => {
            proof { reveal_strlit("set_mempolicy"); }
            "set_mempolicy"
        },
        239 => {
            proof { reveal_strlit("get_mempolicy"); }
            "get_mempolicy"
        },
        _ => {
            proof {
                assert(false);
            }
            ""
        },
    }
}

fn sysno_name_str_c(id: u32) -> (r: &'static str)
    requires
        240 <= id < 335,
    ensures
        r@ == sysno_name_seq_c(id as int),
        r@.len() > 0,
{
    match id {
        240 => {
            proof { reveal_strlit("mq_open"); }
            "mq_open"
        },
        241 => {
            proof { reveal_strlit("mq_unlink"); }
            "mq_unlink"
        },
        242 => {
            proof { reveal_strlit("mq_timedsend"); }
            "mq_timedsend"
        },
        243 => {
            proof { reveal_strlit("mq_timedreceive"); }
            "mq_timedreceive"
        },
        244 => {
            proof { reveal_strlit("mq_notify"); }
            "mq_notify"
        },
        245 => {
            proof { reveal_strlit("mq_getsetattr"); }
            "mq_getsetattr"
        },
        246 => {
            proof { reveal_strlit("kexec_load"); }
            "kexec_load"
        },
        247 => {
            proof { reveal_strlit("waitid"); }
            "waitid"
        },
        248 => {
            proof { reveal_strlit("add_key"); }
            "add_key"
        },
        249 => {
            proof { reveal_strlit("request_key"); }
            "request_key"
        },
        250 => {
            proof { reveal_strlit("keyctl"); }
            "keyctl"
        },
        251 => {
            proof { reveal_strlit("ioprio_set"); }
            "ioprio_set"
        },
        252 => {
            proof { reveal_strlit("ioprio_get"); }
            "ioprio_get"
        },
        253 => {
            proof { reveal_strlit("inotify_init"); }
            "inotify_init"
        },
        254 => {
            proof { reveal_strlit("inotify_add_watch"); }
            "inotify_add_watch"
        },
        255 => {
            proof { reveal_strlit("inotify_rm_watch"); }
            "inotify_rm_watch"
        },
        256 => {
            proof { reveal_strlit("migrate_pages"); }
            "migrate_pages"
        },
        257 => {
            proof { reveal_strlit("openat"); }
            "openat"
        },
        258 => {
            proof { reveal_strlit("mkdirat"); }
            "mkdirat"
        },
        259 => {
            proof { reveal_strlit("mknodat"); }
            "mknodat"
        },
        260 => {
            proof { reveal_strlit("fchownat"); }
            "fchownat"
        },
        261 => {
            proof { reveal_strlit("futimesat"); }
            "futimesat"
        },
        262 => {
            proof { reveal_strlit("newfstatat"); }
            "newfstatat"
        },
        263 => {
            proof { reveal_strlit("unlinkat"); }
            "unlinkat"
        },
        264 => {
            proof { reveal_strlit("renameat"); }
            "renameat"
        },
        265 => {
            proof { reveal_strlit("linkat"); }
            "linkat"
        },
        266 => {
            proof { reveal_strlit("symlinkat"); }
            "symlinkat"
        },
        267 => {
            proof { reveal_strlit("readlinkat"); }
            "readlinkat"
        },
        268 => {
            proof { reveal_strlit("fchmodat"); }
            "fchmodat"
        },
        269 => {
            proof { reveal_strlit("faccessat"); }
            "faccessat"
        },
        270 => {
            proof { reveal_strlit("pselect6"); }
            "pselect6"
        },
        271 => {
            proof { reveal_strlit("ppoll"); }
            "ppoll"
        },
        272 => {
            proof { reveal_strlit("unshare"); }
            "unshare"
        },
        273 => {
            proof { reveal_strlit("set_robust_list"); }
            "set_robust_list"
        },
        274 => {
            proof { reveal_strlit("get_robust_list"); }
            "get_robust_list"
        },
        275 => {
            proof { reveal_strlit("splice"); }
            "splice"
        },
        276 => {
            proof { reveal_strlit("tee"); }
            "tee"
        },
        277 => {
            proof { reveal_strlit("sync_file_range"); }
            "sync_file_range"
        },
        278 => {
            proof { reveal_strlit("vmsplice"); }
            "vmsplice"
        },
        279 => {
            proof { reveal_strlit("move_pages"); }
            "move_pages"
        },
        280 => {
            proof { reveal_strlit("utimensat"); }
            "utimensat"
        },
        281 => {
            proof { reveal_strlit("epoll_pwait"); }
            "epoll_pwait"
        },
        282 => {
            proof { reveal_strlit("signalfd"); }
            "signalfd"
        },
        283 => {
            proof { reveal_strlit("timerfd_create"); }
            "timerfd_create"
        },
        284 => {
            proof { reveal_strlit("eventfd"); }
            "eventfd"
        },
        285 => {
            proof { reveal_strlit("fallocate"); }
            "fallocate"
        },
        286 => {
            proof { reveal_strlit("timerfd_settime"); }
            "timerfd_settime"
        },
        287 => {
            proof { reveal_strlit("timerfd_gettime"); }
            "timerfd_gettime"
        },
        288 => {
            proof { reveal_strlit("accept4"); }
            "accept4"
        },
        289 => {
            proof { reveal_strlit("signalfd4"); }
            "signalfd4"
        },
        290 => {
            proof { reveal_strlit("eventfd2"); }
            "eventfd2"
        },
        291 => {
            proof { reveal_strlit("epoll_create1"); }
            "epoll_create1"
        },
        292 => {
            proof { reveal_strlit("dup3"); }
            "dup3"
        },
        293 => {
            proof { reveal_strlit("pipe2"); }
            "pipe2"
        },
        294 => {
            proof { reveal_strlit("inotify_init1"); }
            "inotify_init1"
        },
        295 => {
            proof { reveal_strlit("preadv"); }
            "preadv"
        },
        296 => {
            proof { reveal_strlit("pwritev"); }
            "pwritev"
        },
        297 => {
            proof { reveal_strlit("rt_tgsigqueueinfo"); }
            "rt_tgsigqueueinfo"
        },
        298 => {
            proof { reveal_strlit("perf_event_open"); }
            "perf_event_open"
        },
        299 => {
            proof { reveal_strlit("recvmmsg"); }
            "recvmmsg"
        },
        300 => {
            proof { reveal_strlit("fanotify_init"); }
            "fanotify_init"
        },
        301 => {
            proof { reveal_strlit("fanotify_mark"); }
            "fanotify_mark"
        },
        302 => {
            proof { reveal_strlit("prlimit64"); }
            "prlimit64"
        },
        303 => {
            proof { reveal_strlit("name_to_handle_at"); }
            "name_to_handle_at"
        },
        304 => {
            proof { reveal_strlit("open_by_handle_at"); }
            "open_by_handle_at"
        },
        305 => {
            proof { reveal_strlit("clock_adjtime"); }
            "clock_adjtime"
        },
        306 => {
            proof { reveal_strlit("syncfs"); }
            "syncfs"
        },
        307 => {
            proof { reveal_strlit("sendmmsg"); }
            "sendmmsg"
        },
        308 => {
            proof { reveal_strlit("setns"); }
            "setns"
        },
        309 => {
            proof { reveal_strlit("getcpu"); }
            "getcpu"
        },
        310 => {
            proof { reveal_strlit("process_vm_readv"); }
            "process_vm_readv"
        },
        311 => {
            proof { reveal_strlit("process_vm_writev"); }
            "process_vm_writev"
        },
        312 => {
            proof { reveal_strlit("kcmp"); }
            "kcmp"
        },
        313 => {
            proof { reveal_strlit("finit_module"); }
            "finit_module"
        },
        314 => {
            proof { reveal_strlit("sched_setattr"); }
            "sched_setattr"
        },
        315 => {
            proof { reveal_strlit("sched_getattr"); }
            "sched_getattr"
        },
        316 => {
            proof { reveal_strlit("renameat2"); }
            "renameat2"
        },
        317 => {
            proof { reveal_strlit("seccomp"); }
            "seccomp"
        },
        318 => {
            proof { reveal_strlit("getrandom"); }
            "getrandom"
        },
        319 => {
            proof { reveal_strlit("memfd_create"); }
            "memfd_create"
        },
        320 => {
            proof { reveal_strlit("kexec_file_load"); }
            "kexec_file_load"
        },
        321 => {
            proof { reveal_strlit("bpf"); }
            "bpf"
        },
        322 => {
            proof { reveal_strlit("execveat"); }
            "execveat"
        },
        323 => {
            proof { reveal_strlit("userfaultfd"); }
            "userfaultfd"
        },
        324 => {
            proof { reveal_strlit("membarrier"); }
            "membarrier"
        },
        325 => {
            proof { reveal_strlit("mlock2"); }
            "mlock2"
        },
        326 => {
            proof { reveal_strlit("copy_file_range"); }
            "copy_file_range"
        },
        327 => {
            proof { reveal_strlit("preadv2"); }
            "preadv2"
        },
        328 => {
            proof { reveal_strlit("pwritev2"); }
            "pwritev2"
        },
        329 => {
            proof { reveal_strlit("pkey_mprotect"); }
            "pkey_mprotect"
        },
        330 => {
            proof { reveal_strlit("pkey_alloc"); }
            "pkey_alloc"
        },
        331 => {
            proof { reveal_strlit("pkey_free"); }
            "pkey_free"
        },
        332 => {
            proof { reveal_strlit("statx"); }
            "statx"
        },
        333 => {
            proof { reveal_strlit("io_pgetevents"); }
            "io_pgetevents"
        },
        334 => {
            proof { reveal_strlit("rseq"); }
            "rseq"
        },
        _ => {
            proof {
                assert(false);
            }
            ""
        },
    }
}

fn sysno_name_str_d(id: u32) -> (r: &'static str)
    requires
        424 <= id < 451,
    ensures
        r@ == sysno_name_seq_d(id as int),
        r@.len() > 0,
{
    match id {
        424 => {
            proof { reveal_strlit("pidfd_send_signal"); }
            "pidfd_send_signal"
        },
        425 => {
            proof { reveal_strlit("io_uring_setup"); }
            "io_uring_setup"
        },
        426 => {
            proof { reveal_strlit("io_uring_enter"); }
            "io_uring_enter"
        },
        427 => {
            proof { reveal_strlit("io_uring_register"); }
            "io_uring_register"
        },
        428 => {
            proof { reveal_strlit("open_tree"); }
            "open_tree"
        },
        429 => {
            proof { reveal_strlit("move_mount"); }
            "move_mount"
        },
        430 => {
            proof { reveal_strlit("fsopen"); }
            "fsopen"
        },
        431 => {
            proof { reveal_strlit("fsconfig"); }
            "fsconfig"
        },
        432 => {
            proof { reveal_strlit("fsmount"); }
            "fsmount"
        },
        433 => {
            proof { reveal_strlit("fspick"); }
            "fspick"
        },
        434 => {
            proof { reveal_strlit("pidfd_open"); }
            "pidfd_open"
        },
        435 => {
            proof { reveal_strlit("clone3"); }
            "clone3"
        },
        436 => {
            proof { reveal_strlit("close_range"); }
            "close_range"
        },
        437 => {
            proof { reveal_strlit("openat2"); }
            "openat2"
        },
        438 => {
            proof { reveal_strlit("pidfd_getfd"); }
            "pidfd_getfd"
        },
        439 => {
            proof { reveal_strlit("faccessat2"); }
            "faccessat2"
        },
        440 => {
            proof { reveal_strlit("process_madvise"); }
            "process_madvise"
        },
        441 => {
            proof { reveal_strlit("epoll_pwait2"); }
            "epoll_pwait2"
        },
        442 => {
            proof { reveal_strlit("mount_setattr"); }
            "mount_setattr"
        },
        443 => {
            proof { reveal_strlit("quotactl_fd"); }
            "quotactl_fd"
        },
        444 => {
            proof { reveal_strlit("landlock_create_ruleset"); }
            "landlock_create_ruleset"
        },
        445 => {
            proof { reveal_strlit("landlock_add_rule"); }
            "landlock_add_rule"
        },
        446 => {
            proof { reveal_strlit("landlock_restrict_self"); }
            "landlock_restrict_self"
        },
        447 => {
            proof { reveal_strlit("memfd_secret"); }
            "memfd_secret"
        },
        448 => {
            proof { reveal_strlit("process_mrelease"); }
            "process_mrelease"
        },
        449 => {
            proof { reveal_strlit("futex_waitv"); }
            "futex_waitv"
        },
        450 => {
            proof { reveal_strlit("set_mempolicy_home_node"); }
            "set_mempolicy_home_node"
        },
        _ => {
            proof {
                assert(false);
            }
            ""
        },
    }
}

} // verus!
