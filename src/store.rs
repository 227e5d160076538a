//! What the state store adapter computes: the key a user's state is kept
//! under, and the state a read stands for.
use vstd::prelude::*;
use vstd::string::StringExecFns;
use crate::model::{TelegramUserId, UserState};

verus! {

pub open spec fn digit_char(d: int) -> char {
    if d == 0 {
        '0'
    } else if d == 1 {
        '1'
    } else if d == 2 {
        '2'
    } else if d == 3 {
        '3'
    } else if d == 4 {
        '4'
    } else if d == 5 {
        '5'
    } else if d == 6 {
        '6'
    } else if d == 7 {
        '7'
    } else if d == 8 {
        '8'
    } else {
        '9'
    }
}

/// Decimal digits of `n`, most significant first, without leading zeros.
pub open spec fn decimal(n: nat) -> Seq<char>
    decreases n,
{
    if n < 10 {
        seq![digit_char(n as int)]
    } else {
        decimal(n / 10).push(digit_char((n % 10) as int))
    }
}

/// Decimal form of `n`, with a leading `-` when it is negative.
pub open spec fn signed_decimal(n: int) -> Seq<char> {
    if n < 0 {
        seq!['-'] + decimal((-n) as nat)
    } else {
        decimal(n as nat)
    }
}

/// The store key of a user's state: `user_state:<id>:json`.
pub open spec fn state_key_spec(user_id: int) -> Seq<char> {
    "user_state:"@ + signed_decimal(user_id) + ":json"@
}

fn digit_str(d: u64) -> (r: &'static str)
    requires
        d < 10,
    ensures
        r@ == seq![digit_char(d as int)],
{
    proof {
        reveal_strlit("0");
        reveal_strlit("1");
        reveal_strlit("2");
        reveal_strlit("3");
        reveal_strlit("4");
        reveal_strlit("5");
        reveal_strlit("6");
        reveal_strlit("7");
        reveal_strlit("8");
        reveal_strlit("9");
    }
    if d == 0 {
        "0"
    } else if d == 1 {
        "1"
    } else if d == 2 {
        "2"
    } else if d == 3 {
        "3"
    } else if d == 4 {
        "4"
    } else if d == 5 {
        "5"
    } else if d == 6 {
        "6"
    } else if d == 7 {
        "7"
    } else if d == 8 {
        "8"
    } else {
        "9"
    }
}

fn push_decimal(s: &mut String, n: u64)
    ensures
        final(s)@ == old(s)@ + decimal(n as nat),
    decreases n,
{
    if n >= 10 {
        push_decimal(s, n / 10);
    }
    s.append(digit_str(n % 10));
    proof {
        if n >= 10 {
            assert(old(s)@ + decimal(n as nat) =~= old(s)@ + decimal((n / 10) as nat) + seq![digit_char((n % 10) as int)]);
        } else {
            assert(n % 10 == n);
        }
    }
}

proof fn lemma_digit_char_injective(a: int, b: int)
    requires
        0 <= a < 10,
        0 <= b < 10,
        digit_char(a) == digit_char(b),
    ensures
        a == b,
{
}

proof fn lemma_decimal_shape(n: nat)
    ensures
        decimal(n).len() >= 1,
        (decimal(n).len() == 1) == (n < 10),
        forall|i: int| 0 <= i < decimal(n).len() ==> decimal(n)[i] != '-',
    decreases n,
{
    if n >= 10 {
        lemma_decimal_shape(n / 10);
        let d = decimal(n / 10);
        assert forall|i: int| 0 <= i < decimal(n).len() implies decimal(n)[i] != '-' by {
            if i < d.len() {
                assert(decimal(n)[i] == d[i]);
            }
        }
    }
}

proof fn lemma_decimal_injective(a: nat, b: nat)
    requires
        decimal(a) == decimal(b),
    ensures
        a == b,
    decreases a,
{
    lemma_decimal_shape(a);
    lemma_decimal_shape(b);
    if a < 10 {
        assert(decimal(a)[0] == digit_char(a as int));
        assert(decimal(b)[0] == digit_char(b as int));
        lemma_digit_char_injective(a as int, b as int);
    } else {
        let da = decimal(a);
        assert(da.last() == digit_char((a % 10) as int));
        assert(decimal(b).last() == digit_char((b % 10) as int));
        lemma_digit_char_injective((a % 10) as int, (b % 10) as int);
        assert(da.drop_last() =~= decimal(a / 10));
        assert(decimal(b).drop_last() =~= decimal(b / 10));
        lemma_decimal_injective(a / 10, b / 10);
    }
}

proof fn lemma_signed_decimal_injective(a: int, b: int)
    requires
        signed_decimal(a) == signed_decimal(b),
    ensures
        a == b,
{
    if a < 0 && b < 0 {
        let sa = signed_decimal(a);
        assert(sa.subrange(1, sa.len() as int) =~= decimal((-a) as nat));
        assert(signed_decimal(b).subrange(1, sa.len() as int) =~= decimal((-b) as nat));
        lemma_decimal_injective((-a) as nat, (-b) as nat);
    } else if a >= 0 && b >= 0 {
        lemma_decimal_injective(a as nat, b as nat);
    } else if a < 0 {
        lemma_decimal_shape(b as nat);
        assert(signed_decimal(a)[0] == '-');
        assert(decimal(b as nat)[0] != '-');
    } else {
        lemma_decimal_shape(a as nat);
        assert(signed_decimal(b)[0] == '-');
        assert(decimal(a as nat)[0] != '-');
    }
}

/// Each user's state has a key of its own: a write for one user is never
/// read back as the state of another.
pub proof fn lemma_state_keys_distinct(a: int, b: int)
    requires
        a != b,
    ensures
        state_key_spec(a) != state_key_spec(b),
{
    if state_key_spec(a) == state_key_spec(b) {
        let ka = state_key_spec(a);
        let pre = "user_state:"@;
        let post = ":json"@;
        let la = signed_decimal(a).len();
        let lb = signed_decimal(b).len();
        assert(ka.len() == pre.len() + la + post.len());
        assert(state_key_spec(b).len() == pre.len() + lb + post.len());
        assert(ka.subrange(pre.len() as int, (pre.len() + la) as int) =~= signed_decimal(a));
        assert(state_key_spec(b).subrange(pre.len() as int, (pre.len() + lb) as int) =~= signed_decimal(b));
        lemma_signed_decimal_injective(a, b);
    }
}

/// The key under which the state of `user_id` is stored.
pub fn state_key(user_id: TelegramUserId) -> (r: String)
    ensures
        r@ == state_key_spec(user_id as int),
{
    let mut key = String::from_str("user_state:");
    if user_id < 0 {
        key.append("-");
        let magnitude: u64 = (-(user_id as i128)) as u64;
        push_decimal(&mut key, magnitude);
    } else {
        push_decimal(&mut key, user_id as u64);
    }
    key.append(":json");
    proof {
        reveal_strlit("-");
        assert(key@ =~= state_key_spec(user_id as int));
    }
    key
}

/// The state a read stands for: what was stored, or `Unauthorized` when the
/// key is absent (never written, or expired).
pub fn state_or_unauthorized(stored: Option<UserState>) -> (r: UserState)
    ensures
        r == (match stored {
            Some(s) => s,
            None => UserState::Unauthorized,
        }),
{
    match stored {
        Some(s) => s,
        None => UserState::Unauthorized,
    }
}

} // verus!
