use vstd::prelude::*;

verus! {

/// The code of a bad file descriptor (`EBADF` on Linux).
pub const EBADF: i32 = 9;

/// The code of an inaccessible memory area (`EFAULT` on Linux).
pub const EFAULT: i32 = 14;

/// The code of an invalid argument (`EINVAL` on Linux).
pub const EINVAL: i32 = 22;

/// The code of a control request made on a device that does not take it
/// (`ENOTTY` on Linux).
pub const ENOTTY: i32 = 25;

/// The code of a denied permission (`EACCES` on Linux).
pub const EACCES: i32 = 13;

/// A failure of a control request, as the transport classifies it.
#[derive(Clone, Copy, Debug, PartialEq, Eq, Structural)]
pub enum SystemError {
    /// The request was made on an invalid file descriptor.
    InvalidFileDescriptor,
    /// A memory area handed to the kernel was inaccessible.
    MemoryFault,
    /// One or more arguments were invalid.
    InvalidArgument,
    /// The request was made on a device that is not a mode-setting device.
    InvalidFileType,
    /// Permission was denied.
    PermissionDenied,
    /// Any other failure, with its raw error code.
    Unknown { errno: i32 },
}

/// The class of a raw error code.
pub open spec fn classify(code: i32) -> SystemError {
    if code == EBADF {
        SystemError::InvalidFileDescriptor
    } else if code == EFAULT {
        SystemError::MemoryFault
    } else if code == EINVAL {
        SystemError::InvalidArgument
    } else if code == ENOTTY {
        SystemError::InvalidFileType
    } else if code == EACCES {
        SystemError::PermissionDenied
    } else {
        SystemError::Unknown { errno: code }
    }
}

/// The short description of an error.
pub open spec fn description_of(e: SystemError) -> Seq<char> {
    match e {
        SystemError::InvalidFileDescriptor => "invalid file descriptor"@,
        SystemError::MemoryFault => "invalid memory access"@,
        SystemError::InvalidArgument => "invalid argument"@,
        SystemError::InvalidFileType => "invalid file type"@,
        SystemError::PermissionDenied => "permission denied"@,
        SystemError::Unknown { errno } => "unknown system error: "@ + signed_decimal(errno as int),
    }
}

/// The decimal digit for `d`, below ten.
pub open spec fn digit_char(d: nat) -> char {
    if d == 0 { '0' }
    else if d == 1 { '1' }
    else if d == 2 { '2' }
    else if d == 3 { '3' }
    else if d == 4 { '4' }
    else if d == 5 { '5' }
    else if d == 6 { '6' }
    else if d == 7 { '7' }
    else if d == 8 { '8' }
    else { '9' }
}

/// The decimal digits of `n`, most significant first, without leading zeros.
pub open spec fn decimal(n: nat) -> Seq<char>
    decreases n,
{
    if n < 10 {
        seq![digit_char(n)]
    } else {
        decimal(n / 10) + seq![digit_char(n % 10)]
    }
}

/// The decimal text of an integer, with a minus sign where it is negative.
pub open spec fn signed_decimal(c: int) -> Seq<char> {
    if c < 0 {
        seq!['-'] + decimal((-c) as nat)
    } else {
        decimal(c as nat)
    }
}

fn digit_str(d: u32) -> (r: &'static str)
    requires
        d < 10,
    ensures
        r@ == seq![digit_char(d as nat)],
{
    proof {
        reveal_strlit("0");
        reveal_strlit("1");
        reveal_strlit("2");
        reveal_strlit("3");
        reveal_strlit("4");
        reveal_strlit("5");
        reveal_strlit("6");
        reveal_strlit("7");
        reveal_strlit("8");
        reveal_strlit("9");
    }
    if d == 0 { "0" }
    else if d == 1 { "1" }
    else if d == 2 { "2" }
    else if d == 3 { "3" }
    else if d == 4 { "4" }
    else if d == 5 { "5" }
    else if d == 6 { "6" }
    else if d == 7 { "7" }
    else if d == 8 { "8" }
    else { "9" }
}

fn push_decimal(s: &mut String, n: u32)
    ensures
        final(s)@ == old(s)@ + decimal(n as nat),
    decreases n,
{
    if n >= 10 {
        push_decimal(s, n / 10);
    }
    s.append(digit_str(n % 10));
    proof {
        assert(final(s)@ =~= old(s)@ + decimal(n as nat));
    }
}

impl SystemError {
    /// Classifies a raw error code that a control request failed with.
    pub fn from_errno(code: i32) -> (r: SystemError)
        ensures
            r == classify(code),
    {
        if code == EBADF {
            SystemError::InvalidFileDescriptor
        } else if code == EFAULT {
            SystemError::MemoryFault
        } else if code == EINVAL {
            SystemError::InvalidArgument
        } else if code == ENOTTY {
            SystemError::InvalidFileType
        } else if code == EACCES {
            SystemError::PermissionDenied
        } else {
            SystemError::Unknown { errno: code }
        }
    }

    /// A short description of the error.
    pub fn description(&self) -> (r: String)
        ensures
            r@ == description_of(*self),
    {
        match self {
            SystemError::InvalidFileDescriptor => "invalid file descriptor".to_string(),
            SystemError::MemoryFault => "invalid memory access".to_string(),
            SystemError::InvalidArgument => "invalid argument".to_string(),
            SystemError::InvalidFileType => "invalid file type".to_string(),
            SystemError::PermissionDenied => "permission denied".to_string(),
            SystemError::Unknown { errno } => {
                let mut s = String::from_str("unknown system error: ");
                if *errno < 0 {
                    s.append("-");
                    let magnitude: i64 = -(*errno as i64);
                    push_decimal(&mut s, magnitude as u32);
                    proof {
                        reveal_strlit("-");
                        assert(s@ =~= "unknown system error: "@ + signed_decimal(*errno as int));
                    }
                } else {
                    push_decimal(&mut s, *errno as u32);
                }
                s
            },
        }
    }
}

} // verus!
