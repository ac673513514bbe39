use vstd::prelude::*;

verus! {

use crate::units::{UNIT, in_limit};
use crate::synth_params::SynthParams;
use crate::ui_state::{OpPage, Page, UIState};

/// The decimal digit character for `d`.
pub open spec fn spec_digit(d: int) -> char {
    if d == 0 {
        '0'
    } else if d == 1 {
        '1'
    } else if d == 2 {
        '2'
    } else if d == 3 {
        '3'
    } else if d == 4 {
        '4'
    } else if d == 5 {
        '5'
    } else if d == 6 {
        '6'
    } else if d == 7 {
        '7'
    } else if d == 8 {
        '8'
    } else {
        '9'
    }
}

/// The decimal digits of `n`, most significant first, with no leading
/// zeros (`0` itself prints one digit).
pub open spec fn spec_digits(n: nat) -> Seq<char>
    decreases n,
{
    if n < 10 {
        seq![spec_digit(n as int)]
    } else {
        spec_digits(n / 10).push(spec_digit((n % 10) as int))
    }
}

/// A micro-unit value rendered with two decimal places, truncated toward
/// zero: a sign for negative values, the whole part, a point, and two
/// hundredth digits.
pub open spec fn spec_fmt_value(v: int) -> Seq<char> {
    let m = if v < 0 { -v } else { v };
    let whole = (m / (UNIT as int)) as nat;
    let cents = ((m % (UNIT as int)) / 10_000) as nat;
    (if v < 0 { seq!['-'] } else { Seq::<char>::empty() })
        + spec_digits(whole)
        + seq!['.', spec_digit((cents / 10) as int), spec_digit((cents % 10) as int)]
}

fn digit_str(d: u64) -> (r: &'static str)
    requires
        d < 10,
    ensures
        r@ == seq![spec_digit(d as int)],
{
    proof {
        reveal_strlit("0");
        reveal_strlit("1");
        reveal_strlit("2");
        reveal_strlit("3");
        reveal_strlit("4");
        reveal_strlit("5");
        reveal_strlit("6");
        reveal_strlit("7");
        reveal_strlit("8");
        reveal_strlit("9");
    }
    if d == 0 {
        proof {
            assert("0"@ =~= seq![spec_digit(0)]);
        }
        "0"
    } else if d == 1 {
        proof {
            assert("1"@ =~= seq![spec_digit(1)]);
        }
        "1"
    } else if d == 2 {
        proof {
            assert("2"@ =~= seq![spec_digit(2)]);
        }
        "2"
    } else if d == 3 {
        proof {
            assert("3"@ =~= seq![spec_digit(3)]);
        }
        "3"
    } else if d == 4 {
        proof {
            assert("4"@ =~= seq![spec_digit(4)]);
        }
        "4"
    } else if d == 5 {
        proof {
            assert("5"@ =~= seq![spec_digit(5)]);
        }
        "5"
    } else if d == 6 {
        proof {
            assert("6"@ =~= seq![spec_digit(6)]);
        }
        "6"
    } else if d == 7 {
        proof {
            assert("7"@ =~= seq![spec_digit(7)]);
        }
        "7"
    } else if d == 8 {
        proof {
            assert("8"@ =~= seq![spec_digit(8)]);
        }
        "8"
    } else {
        proof {
            assert("9"@ =~= seq![spec_digit(9)]);
        }
        "9"
    }
}

fn push_digits(s: &mut String, n: u64)
    ensures
        final(s)@ == old(s)@ + spec_digits(n as nat),
    decreases n,
{
    if n < 10 {
        s.append(digit_str(n));
        proof {
            assert(s@ =~= old(s)@ + spec_digits(n as nat));
        }
    } else {
        proof {
            assert(n / 10 < n) by (nonlinear_arith)
                requires n >= 10;
        }
        push_digits(s, n / 10);
        s.append(digit_str(n % 10));
        proof {
            assert(s@ =~= old(s)@ + spec_digits(n as nat));
        }
    }
}

/// Renders a micro-unit value with two decimal places (truncated), as the
/// panel shows parameter values.
pub fn fmt_value(value: i64) -> (r: String)
    requires
        in_limit(value as int),
    ensures
        r@ == spec_fmt_value(value as int),
{
    let m: i64 = if value < 0 {
        -value
    } else {
        value
    };
    let mut s = String::new();
    if value < 0 {
        proof {
            reveal_strlit("-");
            assert("-"@ =~= seq!['-']);
        }
        s.append("-");
    }
    push_digits(&mut s, (m / UNIT) as u64);
    proof {
        reveal_strlit(".");
        assert("."@ =~= seq!['.']);
    }
    s.append(".");
    let cents = ((m % UNIT) / 10_000) as u64;
    s.append(digit_str(cents / 10));
    s.append(digit_str(cents % 10));
    proof {
        assert(s@ =~= spec_fmt_value(value as int));
    }
    s
}

/// One labelled value for the panel, with its column ordinal.
#[derive(Debug)]
pub struct ParamReadout {
    pub name: String,
    pub text: String,
    pub ord: u8,
}

/// The read-only snapshot the display loop renders: the labelled values of
/// whatever page the user is looking at.  An operator page shows the tone
/// row (volume and ratio) or the envelope row (the four segment values);
/// the modulation page shows the selected destination's name.
pub fn display_snapshot(params: &SynthParams, ui: &UIState) -> (r: Vec<ParamReadout>)
    requires
        params.inv(),
        ui.inv(),
    ensures
        match ui.page {
            Page::Op(x) => match ui.op_subpage {
                OpPage::Tone => {
                    &&& r.len() == 2
                    &&& r[0].name@ == "Volume"@
                    &&& r[0].text@ == spec_fmt_value(params.ops[x as int].volume.spec_value())
                    &&& r[0].ord == 1
                    &&& r[1].name@ == "Ratio"@
                    &&& r[1].text@ == spec_fmt_value(params.ops[x as int].ratio.spec_value())
                    &&& r[1].ord == 2
                },
                OpPage::Amp => {
                    &&& r.len() == 4
                    &&& r[0].name@ == "Attack"@
                    &&& r[0].text@ == spec_fmt_value(params.ops[x as int].adsr_params.a as int)
                    &&& r[0].ord == 1
                    &&& r[1].name@ == "Decay"@
                    &&& r[1].text@ == spec_fmt_value(params.ops[x as int].adsr_params.d as int)
                    &&& r[1].ord == 2
                    &&& r[2].name@ == "Sustain"@
                    &&& r[2].text@ == spec_fmt_value(params.ops[x as int].adsr_params.s as int)
                    &&& r[2].ord == 3
                    &&& r[3].name@ == "Release"@
                    &&& r[3].text@ == spec_fmt_value(params.ops[x as int].adsr_params.r as int)
                    &&& r[3].ord == 4
                },
            },
            Page::Modulation => {
                &&& r.len() == 1
                &&& r[0].name@ == "Op 2"@
                &&& r[0].text@ == ui.lfo_dest.1.name@
                &&& r[0].ord == 1
            },
        },
{
    let mut r: Vec<ParamReadout> = Vec::new();
    match ui.page {
        Page::Op(x) => {
            let xi = x as usize;
            proof {
                assert(params.ops[xi as int].inv());
            }
            let op = &params.ops[xi];
            match ui.op_subpage {
                OpPage::Tone => {
                    r.push(ParamReadout {
                        name: String::from_str("Volume"),
                        text: fmt_value(op.volume.value()),
                        ord: 1,
                    });
                    r.push(ParamReadout {
                        name: String::from_str("Ratio"),
                        text: fmt_value(op.ratio.value()),
                        ord: 2,
                    });
                },
                OpPage::Amp => {
                    r.push(ParamReadout {
                        name: String::from_str("Attack"),
                        text: fmt_value(op.adsr_params.a),
                        ord: 1,
                    });
                    r.push(ParamReadout {
                        name: String::from_str("Decay"),
                        text: fmt_value(op.adsr_params.d),
                        ord: 2,
                    });
                    r.push(ParamReadout {
                        name: String::from_str("Sustain"),
                        text: fmt_value(op.adsr_params.s),
                        ord: 3,
                    });
                    r.push(ParamReadout {
                        name: String::from_str("Release"),
                        text: fmt_value(op.adsr_params.r),
                        ord: 4,
                    });
                },
            }
        },
        Page::Modulation => {
            r.push(ParamReadout {
                name: String::from_str("Op 2"),
                text: ui.lfo_dest.1.name.clone(),
                ord: 1,
            });
        },
    }
    r
}

} // verus!
