//! The handshake pipes shared with the launcher: locating a pipe from the
//! decimal descriptor number that an environment variable holds.
use vstd::prelude::*;
use vstd::string::*;

verus! {

/// Environment variable holding the start pipe's descriptor number.
pub const START_PIPE_ENV_KEY: &'static str = "_OCI_STARTPIPE";

/// Environment variable holding the sync pipe's descriptor number.
pub const SYNC_PIPE_ENV_KEY: &'static str = "_OCI_SYNCPIPE";

/// Environment variable holding the attach pipe's descriptor number.
pub const ATTACH_PIPE_ENV_KEY: &'static str = "_OCI_ATTACHPIPE";

/// Largest descriptor number.
pub const MAX_FD: i32 = 0x7fff_ffff;

/// Why a handshake pipe could not be located.
#[derive(Clone, Copy, Debug, PartialEq, Eq, Structural)]
pub enum PipeError {
    /// The variable is set but holds no non-negative decimal descriptor number.
    Malformed,
}

pub open spec fn is_digit(c: char) -> bool {
    '0' <= c && c <= '9'
}

pub open spec fn all_digits(s: Seq<char>) -> bool {
    forall|i: int| 0 <= i < s.len() ==> is_digit(#[trigger] s[i])
}

/// The number that the decimal digits `s` write.
pub open spec fn decimal_value(s: Seq<char>) -> int
    decreases s.len(),
{
    if s.len() == 0 {
        0
    } else {
        decimal_value(s.drop_last()) * 10 + (s.last() as int - '0' as int)
    }
}

/// The number that the digits `s` write, if they are one or more and the
/// number is no larger than `MAX_FD`.
pub open spec fn digits_of(s: Seq<char>) -> Option<int> {
    if s.len() > 0 && all_digits(s) && decimal_value(s) <= MAX_FD {
        Option::Some(decimal_value(s))
    } else {
        Option::None
    }
}

/// The descriptor number that `s` writes, if it is one: digits, optionally
/// after a single `+`.
pub open spec fn fd_of(s: Seq<char>) -> Option<int> {
    if s.len() > 0 && s[0] == '+' {
        digits_of(s.drop_first())
    } else {
        digits_of(s)
    }
}

/// A longer run of digits never writes a smaller number.
proof fn lemma_decimal_grows(s: Seq<char>, k: int)
    requires
        0 <= k <= s.len(),
        all_digits(s),
    ensures
        0 <= decimal_value(s.take(k)) <= decimal_value(s),
    decreases s.len() - k,
{
    if k < s.len() {
        lemma_decimal_grows(s, k + 1);
        let t = s.take(k + 1);
        assert(t.drop_last() =~= s.take(k));
        assert(is_digit(s[k]));
        assert(t.last() == s[k]);
    } else {
        assert(s.take(k) =~= s);
        lemma_decimal_nonneg(s);
    }
}

proof fn lemma_decimal_nonneg(s: Seq<char>)
    requires
        all_digits(s),
    ensures
        decimal_value(s) >= 0,
    decreases s.len(),
{
    if s.len() > 0 {
        assert(all_digits(s.drop_last())) by {
            assert forall|i: int| 0 <= i < s.drop_last().len() implies is_digit(#[trigger] s.drop_last()[i]) by {
                assert(s.drop_last()[i] == s[i]);
            }
        }
        lemma_decimal_nonneg(s.drop_last());
        assert(is_digit(s[s.len() - 1]));
    }
}

/// Parse a descriptor number: an optional `+`, then one or more decimal
/// digits that write a number no larger than `MAX_FD`.
pub fn parse_fd(s: &str) -> (r: Result<i32, PipeError>)
    ensures
        match fd_of(s@) {
            Option::Some(v) => r == Ok::<i32, PipeError>(v as i32),
            Option::None => r == Err::<i32, PipeError>(PipeError::Malformed),
        },
{
    let n = s.unicode_len();
    if n > 0 && s.get_char(0) == '+' {
        let rest = s.substring_char(1, n);
        proof {
            assert(rest@ =~= s@.drop_first());
        }
        parse_digits(rest)
    } else {
        parse_digits(s)
    }
}

/// Parse one or more decimal digits that write a number no larger than `MAX_FD`.
fn parse_digits(s: &str) -> (r: Result<i32, PipeError>)
    ensures
        match digits_of(s@) {
            Option::Some(v) => r == Ok::<i32, PipeError>(v as i32),
            Option::None => r == Err::<i32, PipeError>(PipeError::Malformed),
        },
{
    let n = s.unicode_len();
    if n == 0 {
        return Err(PipeError::Malformed);
    }
    let mut value: i64 = 0;
    let mut i: usize = 0;
    while i < n
        invariant
            n == s@.len(),
            0 < n,
            i <= n,
            all_digits(s@.take(i as int)),
            value == decimal_value(s@.take(i as int)),
            0 <= value <= MAX_FD,
        decreases n - i,
    {
        let c = s.get_char(i);
        proof {
            assert(s@.take(i + 1).drop_last() =~= s@.take(i as int));
            assert(s@.take(i + 1).last() == c);
        }
        if c < '0' || c > '9' {
            proof {
                assert(!is_digit(s@[i as int]));
            }
            return Err(PipeError::Malformed);
        }
        let d: i64 = (c as u32 - '0' as u32) as i64;
        value = value * 10 + d;
        i = i + 1;
        proof {
            assert(all_digits(s@.take(i as int))) by {
                assert forall|j: int| 0 <= j < i implies is_digit(#[trigger] s@.take(i as int)[j]) by {
                    if j < i - 1 {
                        assert(s@.take(i as int)[j] == s@.take(i - 1)[j]);
                    }
                }
            }
        }
        if value > MAX_FD as i64 {
            proof {
                if all_digits(s@) {
                    lemma_decimal_grows(s@, i as int);
                }
            }
            return Err(PipeError::Malformed);
        }
    }
    proof {
        assert(s@.take(n as int) =~= s@);
    }
    Ok(value as i32)
}

/// Locate a handshake pipe from its variable's value: `None` when the
/// variable is unset, which is no error, since every pipe is optional.
pub fn locate(value: Option<&str>) -> (r: Result<Option<i32>, PipeError>)
    ensures
        value is None ==> r == Ok::<Option<i32>, PipeError>(Option::None),
        value matches Option::Some(v) ==> match fd_of(v@) {
            Option::Some(fd) => r == Ok::<Option<i32>, PipeError>(Option::Some(fd as i32)),
            Option::None => r == Err::<Option<i32>, PipeError>(PipeError::Malformed),
        },
{
    match value {
        Option::None => Ok(Option::None),
        Option::Some(v) => match parse_fd(v) {
            Ok(fd) => Ok(Option::Some(fd)),
            Err(e) => Err(e),
        },
    }
}

/// Whether the start pipe is closed once the launcher's signal arrived: it
/// stays open only for an exec session that will attach through it.
pub fn close_start_pipe(exec_attach: bool) -> (r: bool)
    ensures
        r == !exec_attach,
{
    !exec_attach
}

} // verus!
