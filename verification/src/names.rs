//! The uniform naming contract.
//!
//! The wire format between this library and the shader program is a fixed
//! set of uniform names: `resolution`, `sphereCnt`, and for each entry index
//! `i` the pair `spheres[i].center` / `spheres[i].radius`. The name for an
//! index is derived deterministically from the index alone; the host resolves
//! these names against the shader exactly once, at registration time.

use vstd::prelude::*;
use vstd::string::StringExecFns;

verus! {

/// The character for one decimal digit.
pub open spec fn digit_char(d: int) -> char {
    if d == 0 {
        '0'
    } else if d == 1 {
        '1'
    } else if d == 2 {
        '2'
    } else if d == 3 {
        '3'
    } else if d == 4 {
        '4'
    } else if d == 5 {
        '5'
    } else if d == 6 {
        '6'
    } else if d == 7 {
        '7'
    } else if d == 8 {
        '8'
    } else {
        '9'
    }
}

/// The usual decimal rendering of a non-negative integer: most significant
/// digit first, no leading zeros (except for zero itself).
pub open spec fn decimal_seq(n: int) -> Seq<char>
    decreases n,
{
    if n < 10 {
        seq![digit_char(n)]
    } else {
        decimal_seq(n / 10).push(digit_char(n % 10))
    }
}

/// `spheres[` — the prefix shared by every per-entry uniform name.
pub open spec fn name_prefix_seq() -> Seq<char> {
    seq!['s', 'p', 'h', 'e', 'r', 'e', 's', '[']
}

/// `].center`
pub open spec fn center_suffix_seq() -> Seq<char> {
    seq![']', '.', 'c', 'e', 'n', 't', 'e', 'r']
}

/// `].radius`
pub open spec fn radius_suffix_seq() -> Seq<char> {
    seq![']', '.', 'r', 'a', 'd', 'i', 'u', 's']
}

/// The name requested for entry `i`'s center: `spheres[i].center`.
pub open spec fn center_name_seq(i: int) -> Seq<char> {
    name_prefix_seq() + decimal_seq(i) + center_suffix_seq()
}

/// The name requested for entry `i`'s radius: `spheres[i].radius`.
pub open spec fn radius_name_seq(i: int) -> Seq<char> {
    name_prefix_seq() + decimal_seq(i) + radius_suffix_seq()
}

/// `sphereCnt` — the name of the live-count uniform.
pub open spec fn count_name_seq() -> Seq<char> {
    seq!['s', 'p', 'h', 'e', 'r', 'e', 'C', 'n', 't']
}

/// `resolution` — the name of the viewport-size uniform, set once by the
/// host at startup and never touched by the registry.
pub open spec fn resolution_name_seq() -> Seq<char> {
    seq!['r', 'e', 's', 'o', 'l', 'u', 't', 'i', 'o', 'n']
}

/// The one-character string for a decimal digit.
fn digit_str(d: usize) -> (r: &'static str)
    requires
        d < 10,
    ensures
        r@ == seq![digit_char(d as int)],
{
    proof {
        reveal_strlit("0");
        reveal_strlit("1");
        reveal_strlit("2");
        reveal_strlit("3");
        reveal_strlit("4");
        reveal_strlit("5");
        reveal_strlit("6");
        reveal_strlit("7");
        reveal_strlit("8");
        reveal_strlit("9");
    }
    if d == 0 {
        proof {
            assert("0"@ =~= seq![digit_char(0)]);
        }
        "0"
    } else if d == 1 {
        proof {
            assert("1"@ =~= seq![digit_char(1)]);
        }
        "1"
    } else if d == 2 {
        proof {
            assert("2"@ =~= seq![digit_char(2)]);
        }
        "2"
    } else if d == 3 {
        proof {
            assert("3"@ =~= seq![digit_char(3)]);
        }
        "3"
    } else if d == 4 {
        proof {
            assert("4"@ =~= seq![digit_char(4)]);
        }
        "4"
    } else if d == 5 {
        proof {
            assert("5"@ =~= seq![digit_char(5)]);
        }
        "5"
    } else if d == 6 {
        proof {
            assert("6"@ =~= seq![digit_char(6)]);
        }
        "6"
    } else if d == 7 {
        proof {
            assert("7"@ =~= seq![digit_char(7)]);
        }
        "7"
    } else if d == 8 {
        proof {
            assert("8"@ =~= seq![digit_char(8)]);
        }
        "8"
    } else {
        proof {
            assert("9"@ =~= seq![digit_char(9)]);
        }
        "9"
    }
}

/// Render an index in decimal.
pub fn decimal_string(n: usize) -> (s: String)
    ensures
        s@ == decimal_seq(n as int),
    decreases n,
{
    if n < 10 {
        String::from_str(digit_str(n))
    } else {
        let q = n / 10;
        let d = n % 10;
        proof {
            assert(q < n) by (nonlinear_arith)
                requires
                    n >= 10,
                    q == n / 10,
            ;
        }
        let mut s = decimal_string(q);
        s.append(digit_str(d));
        proof {
            assert(s@ =~= decimal_seq(n as int));
        }
        s
    }
}

/// The uniform name for entry `i`'s center, exactly `spheres[i].center`.
pub fn center_name(i: usize) -> (r: String)
    ensures
        r@ == center_name_seq(i as int),
{
    let mut s = String::from_str("spheres[");
    proof {
        reveal_strlit("spheres[");
        assert("spheres["@ =~= name_prefix_seq());
    }
    let digits = decimal_string(i);
    s.append(digits.as_str());
    s.append("].center");
    proof {
        reveal_strlit("].center");
        assert("].center"@ =~= center_suffix_seq());
        assert(s@ =~= center_name_seq(i as int));
    }
    s
}

/// The uniform name for entry `i`'s radius, exactly `spheres[i].radius`.
pub fn radius_name(i: usize) -> (r: String)
    ensures
        r@ == radius_name_seq(i as int),
{
    let mut s = String::from_str("spheres[");
    proof {
        reveal_strlit("spheres[");
        assert("spheres["@ =~= name_prefix_seq());
    }
    let digits = decimal_string(i);
    s.append(digits.as_str());
    s.append("].radius");
    proof {
        reveal_strlit("].radius");
        assert("].radius"@ =~= radius_suffix_seq());
        assert(s@ =~= radius_name_seq(i as int));
    }
    s
}

/// The name of the live-count uniform.
pub fn count_name() -> (r: &'static str)
    ensures
        r@ == count_name_seq(),
{
    proof {
        reveal_strlit("sphereCnt");
        assert("sphereCnt"@ =~= count_name_seq());
    }
    "sphereCnt"
}

/// The name of the viewport-size uniform.
pub fn resolution_name() -> (r: &'static str)
    ensures
        r@ == resolution_name_seq(),
{
    proof {
        reveal_strlit("resolution");
        assert("resolution"@ =~= resolution_name_seq());
    }
    "resolution"
}

} // verus!
