use vstd::prelude::*;

use crate::catalog::{canonical_name, Service};
use crate::matcher::{digit_value, digits_value, is_digit, is_digits};
use crate::resolver::ResolvedVersion;

verus! {

pub open spec fn decimal_digits() -> Seq<char> {
    seq!['0', '1', '2', '3', '4', '5', '6', '7', '8', '9']
}

/// The decimal writing of `n`: no sign, no leading zero.
pub open spec fn decimal(n: nat) -> Seq<char>
    decreases n,
{
    if n < 10 {
        seq![decimal_digits()[n as int]]
    } else {
        decimal(n / 10).push(decimal_digits()[(n % 10) as int])
    }
}

/// How a resolved version is written: `latest`, or `major.minor.patch` in decimal.
pub open spec fn version_text(r: ResolvedVersion) -> Seq<char> {
    match r {
        ResolvedVersion::Latest => "latest"@,
        ResolvedVersion::Exact(v) => decimal(v.major as nat) + seq!['.'] + decimal(v.minor as nat)
            + seq!['.'] + decimal(v.patch as nat),
    }
}

/// The address of the documentation of `s`'s client library, in the version `r`.
pub open spec fn doc_url_text(s: Service, r: ResolvedVersion) -> Seq<char> {
    "https://docs.rs/aws-sdk-"@ + canonical_name(s) + "/"@ + version_text(r) + "/aws_sdk_"@
        + canonical_name(s) + "/client/struct.Client.html"@
}

/// The decimal writing of a number reads back as that number, and it begins
/// with a zero only where the number is zero.
pub proof fn lemma_decimal_round_trip(n: nat)
    ensures
        is_digits(decimal(n)),
        digits_value(decimal(n)) == n,
        decimal(n)[0] == '0' ==> n == 0,
    decreases n,
{
    let d = decimal(n);
    assert(is_digit(decimal_digits()[(n % 10) as int]) && digit_value(decimal_digits()[(n % 10) as int]) == n % 10) by {
        assert(n % 10 == 0 || n % 10 == 1 || n % 10 == 2 || n % 10 == 3 || n % 10 == 4 || n % 10 == 5
            || n % 10 == 6 || n % 10 == 7 || n % 10 == 8 || n % 10 == 9);
    }
    if n >= 10 {
        lemma_decimal_round_trip(n / 10);
        assert(d.drop_last() == decimal(n / 10));
        assert(d[0] == decimal(n / 10)[0]);
        assert(d.last() == decimal_digits()[(n % 10) as int]);
        assert((n / 10) * 10 + n % 10 == n) by (nonlinear_arith);
        assert forall|i: int| 0 <= i < d.len() implies is_digit(#[trigger] d[i]) by {
            if i < d.len() - 1 {
                assert(d[i] == decimal(n / 10)[i]);
            } else {
                assert(d[i] == decimal_digits()[(n % 10) as int]);
            }
        }
    } else {
        assert(n % 10 == n);
        assert(d.drop_last() =~= Seq::<char>::empty());
        assert(is_digit(d[0]));
        assert(digits_value(d.drop_last()) == 0);
    }
}

/// The one-character text of the digit `d`.
fn digit_str(d: u64) -> (r: &'static str)
    requires
        d < 10,
    ensures
        r@ == seq![decimal_digits()[d as int]],
{
    match d {
        0 => {
            proof {
                reveal_strlit("0");
            }
            "0"
        },
        1 => {
            proof {
                reveal_strlit("1");
            }
            "1"
        },
        2 => {
            proof {
                reveal_strlit("2");
            }
            "2"
        },
        3 => {
            proof {
                reveal_strlit("3");
            }
            "3"
        },
        4 => {
            proof {
                reveal_strlit("4");
            }
            "4"
        },
        5 => {
            proof {
                reveal_strlit("5");
            }
            "5"
        },
        6 => {
            proof {
                reveal_strlit("6");
            }
            "6"
        },
        7 => {
            proof {
                reveal_strlit("7");
            }
            "7"
        },
        8 => {
            proof {
                reveal_strlit("8");
            }
            "8"
        },
        _ => {
            proof {
                reveal_strlit("9");
            }
            "9"
        },
    }
}

/// Appends the decimal writing of `n` to `out`.
fn push_decimal(out: &mut String, n: u64)
    ensures
        final(out)@ == old(out)@ + decimal(n as nat),
    decreases n,
{
    if n >= 10 {
        push_decimal(out, n / 10);
    }
    out.append(digit_str(n % 10));
    assert(decimal(n as nat) == if n < 10 {
        seq![decimal_digits()[n as int]]
    } else {
        decimal((n / 10) as nat).push(decimal_digits()[(n % 10) as int])
    });
    if n >= 10 {
        assert(final(out)@ =~= old(out)@ + decimal(n as nat));
    }
}

impl ResolvedVersion {
    /// The text of this version, as it stands in a documentation address.
    pub fn as_string(&self) -> (r: String)
        ensures
            r@ == version_text(*self),
    {
        match self {
            ResolvedVersion::Latest => String::from_str("latest"),
            ResolvedVersion::Exact(v) => {
                proof {
                    reveal_strlit(".");
                }
                let mut out = String::new();
                push_decimal(&mut out, v.major);
                out.append(".");
                push_decimal(&mut out, v.minor);
                out.append(".");
                push_decimal(&mut out, v.patch);
                assert(out@ =~= version_text(*self));
                out
            },
        }
    }
}

/// The address of the documentation of `service`'s client library, in the
/// version `version`.
pub fn doc_url(service: Service, version: ResolvedVersion) -> (r: String)
    ensures
        r@ == doc_url_text(service, version),
{
    let name = service.url_expression();
    let text = version.as_string();
    let mut out = String::from_str("https://docs.rs/aws-sdk-");
    out.append(name);
    out.append("/");
    out.append(text.as_str());
    out.append("/aws_sdk_");
    out.append(name);
    out.append("/client/struct.Client.html");
    out
}

} // verus!
