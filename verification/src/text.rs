//! The message materializer: turns a line number into decimal text and a
//! format template plus pre-rendered arguments into an owned diagnostic
//! message. Rendering of individual argument values into text is the caller's
//! concern; this module only assembles them.

use vstd::prelude::*;

verus! {

/// The decimal digit character for a value below ten.
pub open spec fn digit_char(d: nat) -> char {
    if d == 0 {
        '0'
    } else if d == 1 {
        '1'
    } else if d == 2 {
        '2'
    } else if d == 3 {
        '3'
    } else if d == 4 {
        '4'
    } else if d == 5 {
        '5'
    } else if d == 6 {
        '6'
    } else if d == 7 {
        '7'
    } else if d == 8 {
        '8'
    } else {
        '9'
    }
}

/// The decimal rendering of a natural number, most significant digit first,
/// without leading zeros (zero itself renders as a single digit).
pub open spec fn decimal_of(n: nat) -> Seq<char>
    decreases n,
{
    if n < 10 {
        seq![digit_char(n)]
    } else {
        decimal_of(n / 10).push(digit_char(n % 10))
    }
}

/// The one-character text for a decimal digit.
fn digit_str(d: u32) -> (r: &'static str)
    requires
        d < 10,
    ensures
        r@ == seq![digit_char(d as nat)],
{
    proof {
        reveal_strlit("0");
        reveal_strlit("1");
        reveal_strlit("2");
        reveal_strlit("3");
        reveal_strlit("4");
        reveal_strlit("5");
        reveal_strlit("6");
        reveal_strlit("7");
        reveal_strlit("8");
        reveal_strlit("9");
    }
    let r: &'static str = if d == 0 {
        "0"
    } else if d == 1 {
        "1"
    } else if d == 2 {
        "2"
    } else if d == 3 {
        "3"
    } else if d == 4 {
        "4"
    } else if d == 5 {
        "5"
    } else if d == 6 {
        "6"
    } else if d == 7 {
        "7"
    } else if d == 8 {
        "8"
    } else {
        "9"
    };
    proof {
        assert(r@ =~= seq![digit_char(d as nat)]);
    }
    r
}

/// Renders a number in decimal, most significant digit first.
pub fn decimal_string(n: u32) -> (r: String)
    ensures
        r@ == decimal_of(n as nat),
    decreases n,
{
    if n < 10 {
        String::from_str(digit_str(n))
    } else {
        let mut r = decimal_string(n / 10);
        r.append(digit_str(n % 10));
        proof {
            assert(r@ =~= decimal_of(n as nat));
        }
        r
    }
}

/// What rendering a format template yields: each `{}` placeholder pair
/// consumes the next argument's text; once the arguments are exhausted a
/// placeholder renders as empty text (the failure is discarded, since there
/// is no recovery path at this point); every other character passes through.
pub open spec fn interp(t: Seq<char>, args: Seq<Seq<char>>) -> Seq<char>
    decreases t.len(),
{
    if t.len() >= 2 && t[0] == '{' && t[1] == '}' {
        if args.len() > 0 {
            args[0] + interp(t.skip(2), args.skip(1))
        } else {
            interp(t.skip(2), args)
        }
    } else if t.len() > 0 {
        seq![t[0]] + interp(t.skip(1), args)
    } else {
        Seq::empty()
    }
}

/// Over a stretch of the template in which no placeholder begins, rendering
/// passes the stretch through unchanged.
proof fn lemma_interp_segment(t: Seq<char>, args: Seq<Seq<char>>, s: int, e: int)
    requires
        0 <= s <= e <= t.len(),
        forall|j: int|
            s <= j < e ==> !(#[trigger] t[j] == '{' && j + 1 < t.len() && t[j + 1] == '}'),
    ensures
        interp(t.skip(s), args) == t.subrange(s, e) + interp(t.skip(e), args),
    decreases e - s,
{
    if s == e {
        assert(t.subrange(s, e) + interp(t.skip(e), args) =~= interp(t.skip(s), args));
    } else {
        let ts = t.skip(s);
        assert(ts.len() == t.len() - s);
        assert(ts[0] == t[s]);
        if ts.len() >= 2 {
            assert(ts[1] == t[s + 1]);
        }
        assert(!(ts.len() >= 2 && ts[0] == '{' && ts[1] == '}'));
        assert(ts.skip(1) =~= t.skip(s + 1));
        lemma_interp_segment(t, args, s + 1, e);
        assert(interp(t.skip(s), args) == seq![t[s]] + (t.subrange(s + 1, e) + interp(
            t.skip(e),
            args,
        )));
        assert(seq![t[s]] + (t.subrange(s + 1, e) + interp(t.skip(e), args)) =~= t.subrange(s, e)
            + interp(t.skip(e), args));
    }
}

/// Renders a format template into a fresh owned buffer, substituting each
/// `{}` placeholder with the next argument's text in order.
pub fn interpolate(template: &str, args: &Vec<String>) -> (r: String)
    ensures
        r@ == interp(template@, args.deep_view()),
{
    let ghost t = template@;
    let ghost argv = args.deep_view();
    let len = template.unicode_len();
    let mut out = String::new();
    let mut seg: usize = 0;
    let mut i: usize = 0;
    let mut next: usize = 0;
    proof {
        assert(t.skip(0) =~= t);
        assert(argv.skip(0) =~= argv);
        assert(out@ + interp(t, argv) =~= interp(t, argv));
    }
    while i < len
        invariant
            len == t.len(),
            t == template@,
            argv == args.deep_view(),
            seg <= i <= len,
            next <= argv.len(),
            out@ + interp(t.skip(seg as int), argv.skip(next as int)) == interp(t, argv),
            forall|j: int|
                seg <= j < i ==> !(#[trigger] t[j] == '{' && j + 1 < t.len() && t[j + 1] == '}'),
        decreases len - i,
    {
        let c = template.get_char(i);
        let mut matched = false;
        if c == '{' && i + 1 < len {
            let c2 = template.get_char(i + 1);
            if c2 == '}' {
                matched = true;
            }
        }
        if matched {
            let piece = template.substring_char(seg, i);
            out.append(piece);
            proof {
                lemma_interp_segment(t, argv.skip(next as int), seg as int, i as int);
                assert(t.skip(i as int).len() >= 2);
                assert(t.skip(i as int)[0] == '{');
                assert(t.skip(i as int)[1] == '}');
                assert(t.skip(i as int).skip(2) =~= t.skip(i + 2));
            }
            if next < args.len() {
                let arg: &String = &args[next];
                out.append(arg.as_str());
                proof {
                    assert(argv.skip(next as int)[0] == arg@);
                    assert(argv.skip(next as int).skip(1) =~= argv.skip(next + 1));
                    assert(interp(t.skip(seg as int), argv.skip(next as int)) == t.subrange(
                        seg as int,
                        i as int,
                    ) + (argv[next as int] + interp(t.skip(i + 2), argv.skip(next + 1))));
                }
                next = next + 1;
            } else {
                proof {
                    assert(argv.skip(next as int).len() == 0);
                    assert(interp(t.skip(seg as int), argv.skip(next as int)) == t.subrange(
                        seg as int,
                        i as int,
                    ) + interp(t.skip(i + 2), argv.skip(next as int)));
                }
            }
            i = i + 2;
            seg = i;
            proof {
                assert(out@ + interp(t.skip(seg as int), argv.skip(next as int)) =~= interp(
                    t,
                    argv,
                ));
            }
        } else {
            i = i + 1;
        }
    }
    let tail = template.substring_char(seg, len);
    out.append(tail);
    proof {
        lemma_interp_segment(t, argv.skip(next as int), seg as int, len as int);
        assert(t.skip(len as int).len() == 0);
        assert(out@ =~= interp(t, argv));
    }
    out
}

} // verus!
