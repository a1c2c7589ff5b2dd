//! Error numbers of the Linux kernel interface, with their symbolic names and
//! their messages.

use vstd::prelude::*;

pub use crate::err_::Error as OsErr;

verus! {

/// Operation not permitted
pub const EPERM: usize = 1;
/// No such file or directory
pub const ENOENT: usize = 2;
/// No such process
pub const ESRCH: usize = 3;
/// Interrupted system call
pub const EINTR: usize = 4;
/// Input/output error
pub const EIO: usize = 5;
/// No such device or address
pub const ENXIO: usize = 6;
/// Argument list too long
pub const E2BIG: usize = 7;
/// Exec format error
pub const ENOEXEC: usize = 8;
/// Bad file descriptor
pub const EBADF: usize = 9;
/// No child processes
pub const ECHILD: usize = 10;
/// Resource temporarily unavailable
pub const EAGAIN: usize = 11;
/// Cannot allocate memory
pub const ENOMEM: usize = 12;
/// Permission denied
pub const EACCES: usize = 13;
/// Bad address
pub const EFAULT: usize = 14;
/// Block device required
pub const ENOTBLK: usize = 15;
/// Device or resource busy
pub const EBUSY: usize = 16;
/// File exists
pub const EEXIST: usize = 17;
/// Invalid cross-device link
pub const EXDEV: usize = 18;
/// No such device
pub const ENODEV: usize = 19;
/// Not a directory
pub const ENOTDIR: usize = 20;
/// Is a directory
pub const EISDIR: usize = 21;
/// Invalid argument
pub const EINVAL: usize = 22;
/// Too many open files in system
pub const ENFILE: usize = 23;
/// Too many open files
pub const EMFILE: usize = 24;
/// Inappropriate ioctl for device
pub const ENOTTY: usize = 25;
/// Text file busy
pub const ETXTBSY: usize = 26;
/// File too large
pub const EFBIG: usize = 27;
/// No space left on device
pub const ENOSPC: usize = 28;
/// Illegal seek
pub const ESPIPE: usize = 29;
/// Read-only file system
pub const EROFS: usize = 30;
/// Too many links
pub const EMLINK: usize = 31;
/// Broken pipe
pub const EPIPE: usize = 32;
/// Numerical argument out of domain
pub const EDOM: usize = 33;
/// Numerical result out of range
pub const ERANGE: usize = 34;
/// Resource deadlock avoided
pub const EDEADLK: usize = 35;
/// File name too long
pub const ENAMETOOLONG: usize = 36;
/// No locks available
pub const ENOLCK: usize = 37;
/// Function not implemented
pub const ENOSYS: usize = 38;
/// Directory not empty
pub const ENOTEMPTY: usize = 39;
/// Too many levels of symbolic links
pub const ELOOP: usize = 40;
/// No message of desired type
pub const ENOMSG: usize = 42;
/// Identifier removed
pub const EIDRM: usize = 43;
/// Channel number out of range
pub const ECHRNG: usize = 44;
/// Level 2 not synchronized
pub const EL2NSYNC: usize = 45;
/// Level 3 halted
pub const EL3HLT: usize = 46;
/// Level 3 reset
pub const EL3RST: usize = 47;
/// Link number out of range
pub const ELNRNG: usize = 48;
/// Protocol driver not attached
pub const EUNATCH: usize = 49;
/// No CSI structure available
pub const ENOCSI: usize = 50;
/// Level 2 halted
pub const EL2HLT: usize = 51;
/// Invalid exchange
pub const EBADE: usize = 52;
/// Invalid request descriptor
pub const EBADR: usize = 53;
/// Exchange full
pub const EXFULL: usize = 54;
/// No anode
pub const ENOANO: usize = 55;
/// Invalid request code
pub const EBADRQC: usize = 56;
/// Invalid slot
pub const EBADSLT: usize = 57;
/// Bad font file format
pub const EBFONT: usize = 59;
/// Device not a stream
pub const ENOSTR: usize = 60;
/// No data available
pub const ENODATA: usize = 61;
/// Timer expired
pub const ETIME: usize = 62;
/// Out of streams resources
pub const ENOSR: usize = 63;
/// Machine is not on the network
pub const ENONET: usize = 64;
/// Package not installed
pub const ENOPKG: usize = 65;
/// Object is remote
pub const EREMOTE: usize = 66;
/// Link has been severed
pub const ENOLINK: usize = 67;
/// Advertise error
pub const EADV: usize = 68;
/// Srmount error
pub const ESRMNT: usize = 69;
/// Communication error on send
pub const ECOMM: usize = 70;
/// Protocol error
pub const EPROTO: usize = 71;
/// Multihop attempted
pub const EMULTIHOP: usize = 72;
/// RFS specific error
pub const EDOTDOT: usize = 73;
/// Bad message
pub const EBADMSG: usize = 74;
/// Value too large for defined data type
pub const EOVERFLOW: usize = 75;
/// Name not unique on network
pub const ENOTUNIQ: usize = 76;
/// File descriptor in bad state
pub const EBADFD: usize = 77;
/// Remote address changed
pub const EREMCHG: usize = 78;
/// Can not access a needed shared library
pub const ELIBACC: usize = 79;
/// Accessing a corrupted shared library
pub const ELIBBAD: usize = 80;
/// .lib section in a.out corrupted
pub const ELIBSCN: usize = 81;
/// Attempting to link in too many shared libraries
pub const ELIBMAX: usize = 82;
/// Cannot exec a shared library directly
pub const ELIBEXEC: usize = 83;
/// Invalid or incomplete multibyte or wide character
pub const EILSEQ: usize = 84;
/// Interrupted system call should be restarted
pub const ERESTART: usize = 85;
/// Streams pipe error
pub const ESTRPIPE: usize = 86;
/// Too many users
pub const EUSERS: usize = 87;
/// Socket operation on non-socket
pub const ENOTSOCK: usize = 88;
/// Destination address required
pub const EDESTADDRREQ: usize = 89;
/// Message too long
pub const EMSGSIZE: usize = 90;
/// Protocol wrong type for socket
pub const EPROTOTYPE: usize = 91;
/// Protocol not available
pub const ENOPROTOOPT: usize = 92;
/// Protocol not supported
pub const EPROTONOSUPPORT: usize = 93;
/// Socket type not supported
pub const ESOCKTNOSUPPORT: usize = 94;
/// Operation not supported
pub const EOPNOTSUPP: usize = 95;
/// Protocol family not supported
pub const EPFNOSUPPORT: usize = 96;
/// Address family not supported by protocol
pub const EAFNOSUPPORT: usize = 97;
/// Address already in use
pub const EADDRINUSE: usize = 98;
/// Cannot assign requested address
pub const EADDRNOTAVAIL: usize = 99;
/// Network is down
pub const ENETDOWN: usize = 100;
/// Network is unreachable
pub const ENETUNREACH: usize = 101;
/// Network dropped connection on reset
pub const ENETRESET: usize = 102;
/// Software caused connection abort
pub const ECONNABORTED: usize = 103;
/// Connection reset by peer
pub const ECONNRESET: usize = 104;
/// No buffer space available
pub const ENOBUFS: usize = 105;
/// Transport endpoint is already connected
pub const EISCONN: usize = 106;
/// Transport endpoint is not connected
pub const ENOTCONN: usize = 107;
/// Cannot send after transport endpoint shutdown
pub const ESHUTDOWN: usize = 108;
/// Too many references: cannot splice
pub const ETOOMANYREFS: usize = 109;
/// Connection timed out
pub const ETIMEDOUT: usize = 110;
/// Connection refused
pub const ECONNREFUSED: usize = 111;
/// Host is down
pub const EHOSTDOWN: usize = 112;
/// No route to host
pub const EHOSTUNREACH: usize = 113;
/// Operation already in progress
pub const EALREADY: usize = 114;
/// Operation now in progress
pub const EINPROGRESS: usize = 115;
/// Stale file handle
pub const ESTALE: usize = 116;
/// Structure needs cleaning
pub const EUCLEAN: usize = 117;
/// Not a XENIX named type file
pub const ENOTNAM: usize = 118;
/// No XENIX semaphores available
pub const ENAVAIL: usize = 119;
/// Is a named type file
pub const EISNAM: usize = 120;
/// Remote I/O error
pub const EREMOTEIO: usize = 121;
/// Disk quota exceeded
pub const EDQUOT: usize = 122;
/// No medium found
pub const ENOMEDIUM: usize = 123;
/// Wrong medium type
pub const EMEDIUMTYPE: usize = 124;
/// Operation canceled
pub const ECANCELED: usize = 125;
/// Required key not available
pub const ENOKEY: usize = 126;
/// Key has expired
pub const EKEYEXPIRED: usize = 127;
/// Key has been revoked
pub const EKEYREVOKED: usize = 128;
/// Key was rejected by service
pub const EKEYREJECTED: usize = 129;
/// Owner died
pub const EOWNERDEAD: usize = 130;
/// State not recoverable
pub const ENOTRECOVERABLE: usize = 131;
/// Operation not possible due to RF-kill
pub const ERFKILL: usize = 132;
/// Memory page has hardware error
pub const EHWPOISON: usize = 133;
/// Another name of [`EAGAIN`].
pub const EWOULDBLOCK: usize = EAGAIN;
/// Another name of [`EDEADLK`].
pub const EDEADLOCK: usize = EDEADLK;
/// Another name of [`EOPNOTSUPP`].
pub const ENOTSUP: usize = EOPNOTSUPP;
/// The greatest error number that has a name.
pub const MAX_NAMED: usize = 133;

/// The symbolic name of error number `code`, where it has one.
pub open spec fn spec_name_of(code: usize) -> Option<&'static str> {
    match code {
        1 => Some("EPERM"),
        2 => Some("ENOENT"),
        3 => Some("ESRCH"),
        4 => Some("EINTR"),
        5 => Some("EIO"),
        6 => Some("ENXIO"),
        7 => Some("E2BIG"),
        8 => Some("ENOEXEC"),
        9 => Some("EBADF"),
        10 => Some("ECHILD"),
        11 => Some("EAGAIN"),
        12 => Some("ENOMEM"),
        13 => Some("EACCES"),
        14 => Some("EFAULT"),
        15 => Some("ENOTBLK"),
        16 => Some("EBUSY"),
        17 => Some("EEXIST"),
        18 => Some("EXDEV"),
        19 => Some("ENODEV"),
        20 => Some("ENOTDIR"),
        21 => Some("EISDIR"),
        22 => Some("EINVAL"),
        23 => Some("ENFILE"),
        24 => Some("EMFILE"),
        25 => Some("ENOTTY"),
        26 => Some("ETXTBSY"),
        27 => Some("EFBIG"),
        28 => Some("ENOSPC"),
        29 => Some("ESPIPE"),
        30 => Some("EROFS"),
        31 => Some("EMLINK"),
        32 => Some("EPIPE"),
        33 => Some("EDOM"),
        34 => Some("ERANGE"),
        35 => Some("EDEADLK"),
        36 => Some("ENAMETOOLONG"),
        37 => Some("ENOLCK"),
        38 => Some("ENOSYS"),
        39 => Some("ENOTEMPTY"),
        40 => Some("ELOOP"),
        42 => Some("ENOMSG"),
        43 => Some("EIDRM"),
        44 => Some("ECHRNG"),
        45 => Some("EL2NSYNC"),
        46 => Some("EL3HLT"),
        47 => Some("EL3RST"),
        48 => Some("ELNRNG"),
        49 => Some("EUNATCH"),
        50 => Some("ENOCSI"),
        51 => Some("EL2HLT"),
        52 => Some("EBADE"),
        53 => Some("EBADR"),
        54 => Some("EXFULL"),
        55 => Some("ENOANO"),
        56 => Some("EBADRQC"),
        57 => Some("EBADSLT"),
        59 => Some("EBFONT"),
        60 => Some("ENOSTR"),
        61 => Some("ENODATA"),
        62 => Some("ETIME"),
        63 => Some("ENOSR"),
        64 => Some("ENONET"),
        65 => Some("ENOPKG"),
        66 => Some("EREMOTE"),
        67 => Some("ENOLINK"),
        68 => Some("EADV"),
        69 => Some("ESRMNT"),
        70 => Some("ECOMM"),
        71 => Some("EPROTO"),
        72 => Some("EMULTIHOP"),
        73 => Some("EDOTDOT"),
        74 => Some("EBADMSG"),
        75 => Some("EOVERFLOW"),
        76 => Some("ENOTUNIQ"),
        77 => Some("EBADFD"),
        78 => Some("EREMCHG"),
        79 => Some("ELIBACC"),
        80 => Some("ELIBBAD"),
        81 => Some("ELIBSCN"),
        82 => Some("ELIBMAX"),
        83 => Some("ELIBEXEC"),
        84 => Some("EILSEQ"),
        85 => Some("ERESTART"),
        86 => Some("ESTRPIPE"),
        87 => Some("EUSERS"),
        88 => Some("ENOTSOCK"),
        89 => Some("EDESTADDRREQ"),
        90 => Some("EMSGSIZE"),
        91 => Some("EPROTOTYPE"),
        92 => Some("ENOPROTOOPT"),
        93 => Some("EPROTONOSUPPORT"),
        94 => Some("ESOCKTNOSUPPORT"),
        95 => Some("EOPNOTSUPP"),
        96 => Some("EPFNOSUPPORT"),
        97 => Some("EAFNOSUPPORT"),
        98 => Some("EADDRINUSE"),
        99 => Some("EADDRNOTAVAIL"),
        100 => Some("ENETDOWN"),
        101 => Some("ENETUNREACH"),
        102 => Some("ENETRESET"),
        103 => Some("ECONNABORTED"),
        104 => Some("ECONNRESET"),
        105 => Some("ENOBUFS"),
        106 => Some("EISCONN"),
        107 => Some("ENOTCONN"),
        108 => Some("ESHUTDOWN"),
        109 => Some("ETOOMANYREFS"),
        110 => Some("ETIMEDOUT"),
        111 => Some("ECONNREFUSED"),
        112 => Some("EHOSTDOWN"),
        113 => Some("EHOSTUNREACH"),
        114 => Some("EALREADY"),
        115 => Some("EINPROGRESS"),
        116 => Some("ESTALE"),
        117 => Some("EUCLEAN"),
        118 => Some("ENOTNAM"),
        119 => Some("ENAVAIL"),
        120 => Some("EISNAM"),
        121 => Some("EREMOTEIO"),
        122 => Some("EDQUOT"),
        123 => Some("ENOMEDIUM"),
        124 => Some("EMEDIUMTYPE"),
        125 => Some("ECANCELED"),
        126 => Some("ENOKEY"),
        127 => Some("EKEYEXPIRED"),
        128 => Some("EKEYREVOKED"),
        129 => Some("EKEYREJECTED"),
        130 => Some("EOWNERDEAD"),
        131 => Some("ENOTRECOVERABLE"),
        132 => Some("ERFKILL"),
        133 => Some("EHWPOISON"),
        _ => None,
    }
}

/// The message of error number `code`; empty where it has none.
pub open spec fn spec_message_of(code: usize) -> &'static str {
    match code {
        1 => "Operation not permitted",
        2 => "No such file or directory",
        3 => "No such process",
        4 => "Interrupted system call",
        5 => "Input/output error",
        6 => "No such device or address",
        7 => "Argument list too long",
        8 => "Exec format error",
        9 => "Bad file descriptor",
        10 => "No child processes",
        11 => "Resource temporarily unavailable",
        12 => "Cannot allocate memory",
        13 => "Permission denied",
        14 => "Bad address",
        15 => "Block device required",
        16 => "Device or resource busy",
        17 => "File exists",
        18 => "Invalid cross-device link",
        19 => "No such device",
        20 => "Not a directory",
        21 => "Is a directory",
        22 => "Invalid argument",
        23 => "Too many open files in system",
        24 => "Too many open files",
        25 => "Inappropriate ioctl for device",
        26 => "Text file busy",
        27 => "File too large",
        28 => "No space left on device",
        29 => "Illegal seek",
        30 => "Read-only file system",
        31 => "Too many links",
        32 => "Broken pipe",
        33 => "Numerical argument out of domain",
        34 => "Numerical result out of range",
        35 => "Resource deadlock avoided",
        36 => "File name too long",
        37 => "No locks available",
        38 => "Function not implemented",
        39 => "Directory not empty",
        40 => "Too many levels of symbolic links",
        42 => "No message of desired type",
        43 => "Identifier removed",
        44 => "Channel number out of range",
        45 => "Level 2 not synchronized",
        46 => "Level 3 halted",
        47 => "Level 3 reset",
        48 => "Link number out of range",
        49 => "Protocol driver not attached",
        50 => "No CSI structure available",
        51 => "Level 2 halted",
        52 => "Invalid exchange",
        53 => "Invalid request descriptor",
        54 => "Exchange full",
        55 => "No anode",
        56 => "Invalid request code",
        57 => "Invalid slot",
        59 => "Bad font file format",
        60 => "Device not a stream",
        61 => "No data available",
        62 => "Timer expired",
        63 => "Out of streams resources",
        64 => "Machine is not on the network",
        65 => "Package not installed",
        66 => "Object is remote",
        67 => "Link has been severed",
        68 => "Advertise error",
        69 => "Srmount error",
        70 => "Communication error on send",
        71 => "Protocol error",
        72 => "Multihop attempted",
        73 => "RFS specific error",
        74 => "Bad message",
        75 => "Value too large for defined data type",
        76 => "Name not unique on network",
        77 => "File descriptor in bad state",
        78 => "Remote address changed",
        79 => "Can not access a needed shared library",
        80 => "Accessing a corrupted shared library",
        81 => ".lib section in a.out corrupted",
        82 => "Attempting to link in too many shared libraries",
        83 => "Cannot exec a shared library directly",
        84 => "Invalid or incomplete multibyte or wide character",
        85 => "Interrupted system call should be restarted",
        86 => "Streams pipe error",
        87 => "Too many users",
        88 => "Socket operation on non-socket",
        89 => "Destination address required",
        90 => "Message too long",
        91 => "Protocol wrong type for socket",
        92 => "Protocol not available",
        93 => "Protocol not supported",
        94 => "Socket type not supported",
        95 => "Operation not supported",
        96 => "Protocol family not supported",
        97 => "Address family not supported by protocol",
        98 => "Address already in use",
        99 => "Cannot assign requested address",
        100 => "Network is down",
        101 => "Network is unreachable",
        102 => "Network dropped connection on reset",
        103 => "Software caused connection abort",
        104 => "Connection reset by peer",
        105 => "No buffer space available",
        106 => "Transport endpoint is already connected",
        107 => "Transport endpoint is not connected",
        108 => "Cannot send after transport endpoint shutdown",
        109 => "Too many references: cannot splice",
        110 => "Connection timed out",
        111 => "Connection refused",
        112 => "Host is down",
        113 => "No route to host",
        114 => "Operation already in progress",
        115 => "Operation now in progress",
        116 => "Stale file handle",
        117 => "Structure needs cleaning",
        118 => "Not a XENIX named type file",
        119 => "No XENIX semaphores available",
        120 => "Is a named type file",
        121 => "Remote I/O error",
        122 => "Disk quota exceeded",
        123 => "No medium found",
        124 => "Wrong medium type",
        125 => "Operation canceled",
        126 => "Required key not available",
        127 => "Key has expired",
        128 => "Key has been revoked",
        129 => "Key was rejected by service",
        130 => "Owner died",
        131 => "State not recoverable",
        132 => "Operation not possible due to RF-kill",
        133 => "Memory page has hardware error",
        _ => "",
    }
}

/// Look up the symbolic name of an error number. Numbers outside the table,
/// zero among them, have none.
pub fn name_of(code: usize) -> (name: Option<&'static str>)
    ensures
        name == spec_name_of(code),
        name is Some ==> 1 <= code <= MAX_NAMED,
{
    match code {
        1 => Some("EPERM"),
        2 => Some("ENOENT"),
        3 => Some("ESRCH"),
        4 => Some("EINTR"),
        5 => Some("EIO"),
        6 => Some("ENXIO"),
        7 => Some("E2BIG"),
        8 => Some("ENOEXEC"),
        9 => Some("EBADF"),
        10 => Some("ECHILD"),
        11 => Some("EAGAIN"),
        12 => Some("ENOMEM"),
        13 => Some("EACCES"),
        14 => Some("EFAULT"),
        15 => Some("ENOTBLK"),
        16 => Some("EBUSY"),
        17 => Some("EEXIST"),
        18 => Some("EXDEV"),
        19 => Some("ENODEV"),
        20 => Some("ENOTDIR"),
        21 => Some("EISDIR"),
        22 => Some("EINVAL"),
        23 => Some("ENFILE"),
        24 => Some("EMFILE"),
        25 => Some("ENOTTY"),
        26 => Some("ETXTBSY"),
        27 => Some("EFBIG"),
        28 => Some("ENOSPC"),
        29 => Some("ESPIPE"),
        30 => Some("EROFS"),
        31 => Some("EMLINK"),
        32 => Some("EPIPE"),
        33 => Some("EDOM"),
        34 => Some("ERANGE"),
        35 => Some("EDEADLK"),
        36 => Some("ENAMETOOLONG"),
        37 => Some("ENOLCK"),
        38 => Some("ENOSYS"),
        39 => Some("ENOTEMPTY"),
        40 => Some("ELOOP"),
        42 => Some("ENOMSG"),
        43 => Some("EIDRM"),
        44 => Some("ECHRNG"),
        45 => Some("EL2NSYNC"),
        46 => Some("EL3HLT"),
        47 => Some("EL3RST"),
        48 => Some("ELNRNG"),
        49 => Some("EUNATCH"),
        50 => Some("ENOCSI"),
        51 => Some("EL2HLT"),
        52 => Some("EBADE"),
        53 => Some("EBADR"),
        54 => Some("EXFULL"),
        55 => Some("ENOANO"),
        56 => Some("EBADRQC"),
        57 => Some("EBADSLT"),
        59 => Some("EBFONT"),
        60 => Some("ENOSTR"),
        61 => Some("ENODATA"),
        62 => Some("ETIME"),
        63 => Some("ENOSR"),
        64 => Some("ENONET"),
        65 => Some("ENOPKG"),
        66 => Some("EREMOTE"),
        67 => Some("ENOLINK"),
        68 => Some("EADV"),
        69 => Some("ESRMNT"),
        70 => Some("ECOMM"),
        71 => Some("EPROTO"),
        72 => Some("EMULTIHOP"),
        73 => Some("EDOTDOT"),
        74 => Some("EBADMSG"),
        75 => Some("EOVERFLOW"),
        76 => Some("ENOTUNIQ"),
        77 => Some("EBADFD"),
        78 => Some("EREMCHG"),
        79 => Some("ELIBACC"),
        80 => Some("ELIBBAD"),
        81 => Some("ELIBSCN"),
        82 => Some("ELIBMAX"),
        83 => Some("ELIBEXEC"),
        84 => Some("EILSEQ"),
        85 => Some("ERESTART"),
        86 => Some("ESTRPIPE"),
        87 => Some("EUSERS"),
        88 => Some("ENOTSOCK"),
        89 => Some("EDESTADDRREQ"),
        90 => Some("EMSGSIZE"),
        91 => Some("EPROTOTYPE"),
        92 => Some("ENOPROTOOPT"),
        93 => Some("EPROTONOSUPPORT"),
        94 => Some("ESOCKTNOSUPPORT"),
        95 => Some("EOPNOTSUPP"),
        96 => Some("EPFNOSUPPORT"),
        97 => Some("EAFNOSUPPORT"),
        98 => Some("EADDRINUSE"),
        99 => Some("EADDRNOTAVAIL"),
        100 => Some("ENETDOWN"),
        101 => Some("ENETUNREACH"),
        102 => Some("ENETRESET"),
        103 => Some("ECONNABORTED"),
        104 => Some("ECONNRESET"),
        105 => Some("ENOBUFS"),
        106 => Some("EISCONN"),
        107 => Some("ENOTCONN"),
        108 => Some("ESHUTDOWN"),
        109 => Some("ETOOMANYREFS"),
        110 => Some("ETIMEDOUT"),
        111 => Some("ECONNREFUSED"),
        112 => Some("EHOSTDOWN"),
        113 => Some("EHOSTUNREACH"),
        114 => Some("EALREADY"),
        115 => Some("EINPROGRESS"),
        116 => Some("ESTALE"),
        117 => Some("EUCLEAN"),
        118 => Some("ENOTNAM"),
        119 => Some("ENAVAIL"),
        120 => Some("EISNAM"),
        121 => Some("EREMOTEIO"),
        122 => Some("EDQUOT"),
        123 => Some("ENOMEDIUM"),
        124 => Some("EMEDIUMTYPE"),
        125 => Some("ECANCELED"),
        126 => Some("ENOKEY"),
        127 => Some("EKEYEXPIRED"),
        128 => Some("EKEYREVOKED"),
        129 => Some("EKEYREJECTED"),
        130 => Some("EOWNERDEAD"),
        131 => Some("ENOTRECOVERABLE"),
        132 => Some("ERFKILL"),
        133 => Some("EHWPOISON"),
        _ => None,
    }
}

/// Look up the message of an error number. Numbers outside the table, zero
/// among them, give the empty string.
pub fn message_of(code: usize) -> (message: &'static str)
    ensures
        message == spec_message_of(code),
{
    match code {
        1 => "Operation not permitted",
        2 => "No such file or directory",
        3 => "No such process",
        4 => "Interrupted system call",
        5 => "Input/output error",
        6 => "No such device or address",
        7 => "Argument list too long",
        8 => "Exec format error",
        9 => "Bad file descriptor",
        10 => "No child processes",
        11 => "Resource temporarily unavailable",
        12 => "Cannot allocate memory",
        13 => "Permission denied",
        14 => "Bad address",
        15 => "Block device required",
        16 => "Device or resource busy",
        17 => "File exists",
        18 => "Invalid cross-device link",
        19 => "No such device",
        20 => "Not a directory",
        21 => "Is a directory",
        22 => "Invalid argument",
        23 => "Too many open files in system",
        24 => "Too many open files",
        25 => "Inappropriate ioctl for device",
        26 => "Text file busy",
        27 => "File too large",
        28 => "No space left on device",
        29 => "Illegal seek",
        30 => "Read-only file system",
        31 => "Too many links",
        32 => "Broken pipe",
        33 => "Numerical argument out of domain",
        34 => "Numerical result out of range",
        35 => "Resource deadlock avoided",
        36 => "File name too long",
        37 => "No locks available",
        38 => "Function not implemented",
        39 => "Directory not empty",
        40 => "Too many levels of symbolic links",
        42 => "No message of desired type",
        43 => "Identifier removed",
        44 => "Channel number out of range",
        45 => "Level 2 not synchronized",
        46 => "Level 3 halted",
        47 => "Level 3 reset",
        48 => "Link number out of range",
        49 => "Protocol driver not attached",
        50 => "No CSI structure available",
        51 => "Level 2 halted",
        52 => "Invalid exchange",
        53 => "Invalid request descriptor",
        54 => "Exchange full",
        55 => "No anode",
        56 => "Invalid request code",
        57 => "Invalid slot",
        59 => "Bad font file format",
        60 => "Device not a stream",
        61 => "No data available",
        62 => "Timer expired",
        63 => "Out of streams resources",
        64 => "Machine is not on the network",
        65 => "Package not installed",
        66 => "Object is remote",
        67 => "Link has been severed",
        68 => "Advertise error",
        69 => "Srmount error",
        70 => "Communication error on send",
        71 => "Protocol error",
        72 => "Multihop attempted",
        73 => "RFS specific error",
        74 => "Bad message",
        75 => "Value too large for defined data type",
        76 => "Name not unique on network",
        77 => "File descriptor in bad state",
        78 => "Remote address changed",
        79 => "Can not access a needed shared library",
        80 => "Accessing a corrupted shared library",
        81 => ".lib section in a.out corrupted",
        82 => "Attempting to link in too many shared libraries",
        83 => "Cannot exec a shared library directly",
        84 => "Invalid or incomplete multibyte or wide character",
        85 => "Interrupted system call should be restarted",
        86 => "Streams pipe error",
        87 => "Too many users",
        88 => "Socket operation on non-socket",
        89 => "Destination address required",
        90 => "Message too long",
        91 => "Protocol wrong type for socket",
        92 => "Protocol not available",
        93 => "Protocol not supported",
        94 => "Socket type not supported",
        95 => "Operation not supported",
        96 => "Protocol family not supported",
        97 => "Address family not supported by protocol",
        98 => "Address already in use",
        99 => "Cannot assign requested address",
        100 => "Network is down",
        101 => "Network is unreachable",
        102 => "Network dropped connection on reset",
        103 => "Software caused connection abort",
        104 => "Connection reset by peer",
        105 => "No buffer space available",
        106 => "Transport endpoint is already connected",
        107 => "Transport endpoint is not connected",
        108 => "Cannot send after transport endpoint shutdown",
        109 => "Too many references: cannot splice",
        110 => "Connection timed out",
        111 => "Connection refused",
        112 => "Host is down",
        113 => "No route to host",
        114 => "Operation already in progress",
        115 => "Operation now in progress",
        116 => "Stale file handle",
        117 => "Structure needs cleaning",
        118 => "Not a XENIX named type file",
        119 => "No XENIX semaphores available",
        120 => "Is a named type file",
        121 => "Remote I/O error",
        122 => "Disk quota exceeded",
        123 => "No medium found",
        124 => "Wrong medium type",
        125 => "Operation canceled",
        126 => "Required key not available",
        127 => "Key has expired",
        128 => "Key has been revoked",
        129 => "Key was rejected by service",
        130 => "Owner died",
        131 => "State not recoverable",
        132 => "Operation not possible due to RF-kill",
        133 => "Memory page has hardware error",
        _ => "",
    }
}

} // verus!
