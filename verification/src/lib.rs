//! A socket adaptation layer over an embedded TCP/IP stack.
//!
//! The layer stands between callers that speak a POSIX-like socket interface
//! and a stack with primitives of its own. It adds no protocol logic, no
//! buffering and no state: it decides which call is made on the stack, with
//! which arguments, and how the integer that comes back is surfaced.
//!
//! The layer is written without input or output. An operation in `ops` yields
//! a `step::Step`; whoever drives the layer performs it on the stack and hands
//! the answer back, to `step::CategoryQuery::answer` or to
//! `request::Request::complete`. What holds of the whole is proved in `laws`.

pub mod config;
pub mod convention;
pub mod errno;
pub mod laws;
pub mod netif;
pub mod ops;
pub mod reply;
pub mod request;
pub mod step;

pub use errno::{
    EPERM, ENOENT, ESRCH, EINTR, EIO, ENXIO, E2BIG, ENOEXEC, EBADF, ECHILD, EAGAIN, ENOMEM,
    EACCES, EFAULT, ENOTBLK, EBUSY, EEXIST, EXDEV, ENODEV, ENOTDIR, EISDIR, EINVAL, ENFILE,
    EMFILE, ENOTTY, ETXTBSY, EFBIG, ENOSPC, ESPIPE, EROFS, EMLINK, EPIPE, EDOM, ERANGE,
    EDEADLK, ENAMETOOLONG, ENOLCK, ENOSYS, ENOTEMPTY, ELOOP, EWOULDBLOCK, ENOMSG, EIDRM,
    ECHRNG, EL2NSYNC, EL3HLT, EL3RST, ELNRNG, EUNATCH, ENOCSI, EL2HLT, EBADE, EBADR, EXFULL,
    ENOANO, EBADRQC, EBADSLT, EDEADLOCK, EBFONT, ENOSTR, ENODATA, ETIME, ENOSR, ENONET, ENOPKG,
    EREMOTE, ENOLINK, EADV, ESRMNT, ECOMM, EPROTO, EMULTIHOP, EDOTDOT, EBADMSG, EOVERFLOW,
    ENOTUNIQ, EBADFD, EREMCHG, ELIBACC, ELIBBAD, ELIBSCN, ELIBMAX, ELIBEXEC, EILSEQ, ERESTART,
    ESTRPIPE, EUSERS, ENOTSOCK, EDESTADDRREQ, EMSGSIZE, EPROTOTYPE, ENOPROTOOPT,
    EPROTONOSUPPORT, ESOCKTNOSUPPORT, EOPNOTSUPP, EPFNOSUPPORT, EAFNOSUPPORT, EADDRINUSE,
    EADDRNOTAVAIL, ENETDOWN, ENETUNREACH, ENETRESET, ECONNABORTED, ECONNRESET, ENOBUFS,
    EISCONN, ENOTCONN, ESHUTDOWN, ETOOMANYREFS, ETIMEDOUT, ECONNREFUSED, EHOSTDOWN,
    EHOSTUNREACH, EALREADY, EINPROGRESS, ESTALE, EUCLEAN, ENOTNAM, ENAVAIL, EISNAM, EREMOTEIO,
    EDQUOT, ENOMEDIUM, EMEDIUMTYPE,
};
pub use netif::is_netif_initialised;
pub use ops::{
    accept, bind, connect, fcntl, freeaddrinfo, getaddrinfo, getpeername, getsockname, getsockopt,
    ioctl, listen, poll, recv, recvfrom, recvmsg, send, sendmsg, sendto, setsockopt, shutdown,
    socket, IPV6_MULTICAST_LOOP,
};
