//! The text palette format: one line per colour, three decimal bytes
//! separated by single spaces; `#` starts a comment; trailing spaces are
//! ignored; 128 lines fill the palette.

use crate::display;
use crate::stella::Colours;
use vstd::prelude::*;

verus! {

/// The first index holding `b`, or the length when none does.
pub open spec fn spec_find_first(s: Seq<u8>, b: u8) -> int
    decreases s.len(),
{
    if s.len() == 0 {
        0
    } else if s[0] == b {
        0
    } else {
        1 + spec_find_first(s.skip(1), b)
    }
}

/// `spec_find_first` really is the first occurrence.
pub proof fn lemma_find_first(s: Seq<u8>, b: u8)
    ensures
        0 <= spec_find_first(s, b) <= s.len(),
        spec_find_first(s, b) < s.len() ==> s[spec_find_first(s, b)] == b,
        forall|i: int| 0 <= i < spec_find_first(s, b) ==> s[i] != b,
    decreases s.len(),
{
    if s.len() != 0 && s[0] != b {
        lemma_find_first(s.skip(1), b);
        let f = spec_find_first(s, b);
        assert(f == 1 + spec_find_first(s.skip(1), b));
        assert forall|i: int| 0 <= i < f implies s[i] != b by {
            if i > 0 {
                assert(s.skip(1)[i - 1] == s[i]);
                assert(s.skip(1)[i - 1] != b);
            }
        }
        if f < s.len() {
            assert(s.skip(1)[f - 1] == s[f]);
        }
    }
}

/// The line with trailing spaces removed.
pub open spec fn spec_trim_end(s: Seq<u8>) -> Seq<u8>
    decreases s.len(),
{
    if s.len() > 0 && s[s.len() - 1] == 32 {
        spec_trim_end(s.drop_last())
    } else {
        s
    }
}

/// The decimal value of a digit run, or nothing for an empty run, a stray
/// character or a value past 255.
pub open spec fn spec_parse_u8(s: Seq<u8>) -> Option<u8> {
    if s.len() == 0 {
        Option::None
    } else {
        match spec_digits_val(s, 0) {
            Option::Some(v) => if v <= 255 {
                Option::Some(v as u8)
            } else {
                Option::None
            },
            Option::None => Option::None,
        }
    }
}

pub open spec fn spec_digits_val(s: Seq<u8>, acc: int) -> Option<int>
    decreases s.len(),
{
    if s.len() == 0 {
        Option::Some(acc)
    } else if 48 <= s[0] <= 57 {
        spec_digits_val(s.skip(1), acc * 10 + (s[0] - 48))
    } else {
        Option::None
    }
}

/// What one palette line means: after stripping any comment and trailing
/// spaces, exactly three decimal bytes separated by single spaces.
pub open spec fn spec_parse_line(l: Seq<u8>) -> Option<(u8, u8, u8)> {
    let body = spec_trim_end(l.take(spec_find_first(l, 35)));
    let i = spec_find_first(body, 32);
    if i >= body.len() {
        Option::None
    } else {
        let f1 = body.take(i);
        let rest = body.skip(i + 1);
        let j = spec_find_first(rest, 32);
        if j >= rest.len() {
            Option::None
        } else {
            let f2 = rest.take(j);
            let f3 = rest.skip(j + 1);
            if spec_find_first(f3, 32) < f3.len() {
                Option::None
            } else {
                match (spec_parse_u8(f1), spec_parse_u8(f2), spec_parse_u8(f3)) {
                    (Option::Some(r), Option::Some(g), Option::Some(b)) => Option::Some((r, g, b)),
                    _ => Option::None,
                }
            }
        }
    }
}

/// Finds the first occurrence of `b` in `s` from `from` on.
fn find_first(s: &[u8], b: u8) -> (r: usize)
    ensures
        r == spec_find_first(s@, b),
{
    let mut i: usize = 0;
    while i < s.len()
        invariant
            i <= s@.len(),
            forall|k: int| 0 <= k < i ==> s@[k] != b,
        decreases s@.len() - i,
    {
        if *vstd::slice::slice_index_get(s, i) == b {
            proof {
                lemma_find_first(s@, b);
                let f = spec_find_first(s@, b);
                if f < i {
                    assert(s@[f] != b);
                }
                if f > i {
                    assert(s@[i as int] != b);
                }
            }
            return i;
        }
        i = i + 1;
    }
    proof {
        lemma_find_first(s@, b);
        let f = spec_find_first(s@, b);
        if f < s@.len() {
            assert(s@[f] != b);
        }
    }
    i
}

/// Parses one decimal byte.
fn parse_u8(s: &[u8]) -> (r: Option<u8>)
    ensures
        r == spec_parse_u8(s@),
{
    if s.len() == 0 {
        return Option::None;
    }
    let mut acc: u32 = 0;
    let ghost mut t: int = 0;
    let mut i: usize = 0;
    proof {
        assert(s@.skip(0) =~= s@);
    }
    while i < s.len()
        invariant
            i <= s@.len(),
            t >= 0,
            acc == (if t <= 1000 {
                t
            } else {
                1000int
            }),
            spec_digits_val(s@, 0) == spec_digits_val(s@.skip(i as int), t),
        decreases s@.len() - i,
    {
        let c = *vstd::slice::slice_index_get(s, i);
        proof {
            assert(s@.skip(i as int)[0] == c);
            assert(s@.skip(i as int).skip(1) =~= s@.skip(i + 1));
        }
        if c < 48 || c > 57 {
            return Option::None;
        }
        proof {
            t = t * 10 + (c - 48);
        }
        acc = acc * 10 + (c - 48) as u32;
        if acc > 1000 {
            acc = 1000;
        }
        i = i + 1;
    }
    proof {
        assert(s@.skip(i as int) =~= Seq::<u8>::empty());
    }
    if acc <= 255 {
        Option::Some(acc as u8)
    } else {
        Option::None
    }
}

/// Trims trailing spaces: the kept prefix length.
fn trim_end_len(s: &[u8]) -> (e: usize)
    ensures
        e <= s@.len(),
        s@.subrange(0, e as int) == spec_trim_end(s@),
{
    let mut e: usize = s.len();
    proof {
        assert(s@.take(e as int) =~= s@);
    }
    while e > 0 && *vstd::slice::slice_index_get(s, e - 1) == 32
        invariant
            e <= s@.len(),
            spec_trim_end(s@) == spec_trim_end(s@.take(e as int)),
        decreases e,
    {
        proof {
            assert(s@.take(e as int).drop_last() =~= s@.take(e - 1));
        }
        e = e - 1;
    }
    proof {
        assert(spec_trim_end(s@.take(e as int)) == s@.take(e as int));
    }
    e
}

/// Parses one palette line: three decimal bytes separated by single
/// spaces, with trailing spaces and a `#` comment allowed.
pub fn parse_palette_line(l: &[u8]) -> (r: Option<(u8, u8, u8)>)
    ensures
        r == spec_parse_line(l@),
{
    let hash = find_first(l, 35);
    proof {
        lemma_find_first(l@, 35);
    }
    let uncommented = vstd::slice::slice_subrange(l, 0, hash);
    proof {
        assert(uncommented@ =~= l@.take(spec_find_first(l@, 35)));
    }
    let e = trim_end_len(uncommented);
    let body = vstd::slice::slice_subrange(uncommented, 0, e);
    let i = find_first(body, 32);
    proof {
        lemma_find_first(body@, 32);
    }
    if i >= body.len() {
        return Option::None;
    }
    let f1 = vstd::slice::slice_subrange(body, 0, i);
    let rest = vstd::slice::slice_subrange(body, i + 1, body.len());
    proof {
        assert(f1@ =~= body@.take(i as int));
        assert(rest@ =~= body@.skip(i + 1));
    }
    let j = find_first(rest, 32);
    proof {
        lemma_find_first(rest@, 32);
    }
    if j >= rest.len() {
        return Option::None;
    }
    let f2 = vstd::slice::slice_subrange(rest, 0, j);
    let f3 = vstd::slice::slice_subrange(rest, j + 1, rest.len());
    proof {
        assert(f2@ =~= rest@.take(j as int));
        assert(f3@ =~= rest@.skip(j + 1));
    }
    if find_first(f3, 32) < f3.len() {
        return Option::None;
    }
    let v1 = parse_u8(f1);
    let v2 = parse_u8(f2);
    let v3 = parse_u8(f3);
    match (v1, v2, v3) {
        (Option::Some(r), Option::Some(g), Option::Some(b)) => Option::Some((r, g, b)),
        _ => Option::None,
    }
}

/// The palette text cut into lines at line feeds; a trailing line feed
/// ends the last line rather than opening an empty one.
pub open spec fn spec_lines(s: Seq<u8>) -> Seq<Seq<u8>>
    decreases s.len(),
{
    if s.len() == 0 {
        Seq::empty()
    } else {
        let i = spec_find_first(s, 10);
        if 0 <= i < s.len() {
            seq![s.take(i)] + spec_lines(s.skip(i + 1))
        } else {
            seq![s]
        }
    }
}

/// Loads a whole palette text: each line in order fills the next palette
/// entry. True exactly when every line parses and there are at most 128 of
/// them; the parsed colours then fill the leading entries and the rest
/// keep their prior values.
#[verifier::rlimit(100)]
pub fn load_palette_text(colours: &mut Colours, data: &[u8]) -> (ok: bool)
    requires
        old(colours).wf(),
        data@.len() < 0x1000000,
    ensures
        final(colours).wf(),
        ok == (spec_lines(data@).len() <= 128 && forall|i: int|
            0 <= i < spec_lines(data@).len() ==> (#[trigger] spec_parse_line(
                spec_lines(data@)[i],
            )) is Some),
        ok ==> forall|i: int|
            0 <= i < spec_lines(data@).len() ==> (spec_parse_line(
                spec_lines(data@)[i],
            ) matches Some(v) && #[trigger] final(colours).colours@[i] == (display::Colour {
                r: v.0,
                g: v.1,
                b: v.2,
            })),
        ok ==> forall|i: int|
            spec_lines(data@).len() <= i < 128 ==> #[trigger] final(colours).colours@[i] == old(
                colours,
            ).colours@[i],
{
    let ghost all = spec_lines(data@);
    let mut start: usize = 0;
    let mut index: u8 = 0;
    let n = data.len();
    let mut pos: usize = 0;
    proof {
        assert(data@.skip(0) =~= data@);
    }
    while pos <= n
        invariant
            colours.wf(),
            start <= pos,
            pos <= n + 1,
            pos <= n || start == n + 1,
            n == data@.len(),
            n < 0x1000000,
            index <= 128,
            all == spec_lines(data@),
            index <= all.len(),
            start <= n ==> all.skip(index as int) == spec_lines(data@.skip(start as int)),
            start == n + 1 ==> index == all.len(),
            forall|q: int| start <= q < pos ==> data@[q] != 10,
            forall|k: int| 0 <= k < index ==> (#[trigger] spec_parse_line(all[k])) is Some,
            forall|k: int|
                0 <= k < index ==> (spec_parse_line(all[k]) matches Some(v)
                    && #[trigger] colours.colours@[k] == (display::Colour {
                    r: v.0,
                    g: v.1,
                    b: v.2,
                })),
            forall|k: int|
                index <= k < 128 ==> #[trigger] colours.colours@[k] == old(colours).colours@[k],
        decreases n + 1 - pos,
    {
        if pos == n || *vstd::slice::slice_index_get(data, pos) == 10 {
            if !(start == pos && pos == n) {
                let line = vstd::slice::slice_subrange(data, start, pos);
                let ghost rem = data@.skip(start as int);
                let ghost f = spec_find_first(rem, 10);
                proof {
                    lemma_find_first(rem, 10);
                    assert(forall|q: int|
                        0 <= q < pos - start ==> #[trigger] rem[q] == data@[q + start]);
                    if f < pos - start {
                        assert(rem[f] != 10);
                    }
                    if pos < n && f > pos - start {
                        assert(rem[pos - start] == data@[pos as int]);
                    }
                    assert(f == pos - start || (pos == n && f >= rem.len()));
                    assert(line@ =~= rem.take(pos - start));
                    if pos < n {
                        assert(all.skip(index as int) == seq![rem.take(f)] + spec_lines(
                            rem.skip(f + 1),
                        ));
                        assert(rem.skip(f + 1) =~= data@.skip(pos + 1));
                    } else {
                        assert(rem.take(pos - start) =~= rem);
                        assert(all.skip(index as int) == seq![rem]);
                    }
                    assert(all.skip(index as int).len() == all.len() - index);
                    assert(all.skip(index as int).len() >= 1);
                    assert(all.skip(index as int)[0] == all[index as int]);
                    assert(all[index as int] == line@);
                }
                match parse_palette_line(line) {
                    Option::Some(rgb) => {
                        if index >= 128 {
                            return false;
                        }
                        colours.set_colour(
                            index,
                            display::Colour::new(rgb.0, rgb.1, rgb.2),
                        );
                        index = index + 1;
                        proof {
                            assert(all.skip(index as int) =~= all.skip(index - 1).skip(1));
                            if pos < n {
                                assert((seq![rem.take(f)] + spec_lines(rem.skip(f + 1))).skip(1)
                                    =~= spec_lines(rem.skip(f + 1)));
                                assert(all.skip(index as int) == spec_lines(data@.skip(pos + 1)));
                            } else {
                                assert(seq![rem].skip(1) =~= Seq::<Seq<u8>>::empty());
                                assert(index == all.len());
                            }
                        }
                    },
                    Option::None => {
                        return false;
                    },
                }
            } else {
                proof {
                    assert(data@.skip(start as int) =~= Seq::<u8>::empty());
                    assert(all.skip(index as int).len() == all.len() - index);
                    assert(index == all.len());
                }
            }
            start = pos + 1;
        }
        pos = pos + 1;
    }
    true
}

} // verus!
