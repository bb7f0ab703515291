use vstd::prelude::*;

verus! {

/// Drops the `\r` of a `\r\n` line ending.
pub open spec fn strip_cr(l: Seq<u8>) -> Seq<u8> {
    if l.len() > 0 && l.last() == 13u8 {
        l.drop_last()
    } else {
        l
    }
}

/// The lines ended so far in `b`, and the text of the line still open.
pub open spec fn scan_lines(b: Seq<u8>) -> (Seq<Seq<u8>>, Seq<u8>)
    decreases b.len(),
{
    if b.len() == 0 {
        (seq![], seq![])
    } else {
        let (done, open) = scan_lines(b.drop_last());
        if b.last() == 10u8 {
            (done.push(strip_cr(open)), seq![])
        } else {
            (done, open.push(b.last()))
        }
    }
}

/// The lines of `b`: split at each `\n`, a `\r` before it dropped; the
/// final line may lack its terminator, and no line follows a final `\n`.
pub open spec fn byte_lines(b: Seq<u8>) -> Seq<Seq<u8>> {
    let (done, open) = scan_lines(b);
    if open.len() == 0 {
        done
    } else {
        done.push(open)
    }
}

/// `ls` without its empty lines, order kept.
pub open spec fn without_empty(ls: Seq<Seq<u8>>) -> Seq<Seq<u8>>
    decreases ls.len(),
{
    if ls.len() == 0 {
        seq![]
    } else {
        let rest = without_empty(ls.drop_last());
        if ls.last().len() == 0 {
            rest
        } else {
            rest.push(ls.last())
        }
    }
}

/// The lines that a normalised output keeps.
pub open spec fn kept_lines(b: Seq<u8>, drop_empty: bool) -> Seq<Seq<u8>> {
    if drop_empty {
        without_empty(byte_lines(b))
    } else {
        byte_lines(b)
    }
}

pub open spec fn views(v: Seq<Vec<u8>>) -> Seq<Seq<u8>> {
    v.map_values(|l: Vec<u8>| l@)
}

pub open spec fn texts(v: Seq<String>) -> Seq<Seq<char>> {
    v.map_values(|l: String| l@)
}

/// `r` holds, in order, the decoded kept lines of `b`.
pub open spec fn normalized(r: Seq<String>, b: Seq<u8>, drop_empty: bool) -> bool {
    &&& r.len() == kept_lines(b, drop_empty).len()
    &&& forall|i: int|
        0 <= i < r.len() ==> #[trigger] r[i]@ == lossy_text(kept_lines(b, drop_empty)[i])
}

/// The text that lossy UTF-8 decoding gives for some bytes.
pub uninterp spec fn lossy_text(b: Seq<u8>) -> Seq<char>;

/// Relies on `String::from_utf8_lossy`: the text depends on the bytes alone.
#[verifier::external_body]
fn decode_lossy(b: &[u8]) -> (r: String)
    ensures
        r@ == lossy_text(b@),
{
    String::from_utf8_lossy(b).into_owned()
}

fn strip_trailing_cr(mut l: Vec<u8>) -> (r: Vec<u8>)
    ensures
        r@ == strip_cr(l@),
{
    if l.len() > 0 && l[l.len() - 1] == 13u8 {
        l.pop();
    }
    l
}

/// Splits raw output into its lines.
pub fn split_lines(b: &[u8]) -> (r: Vec<Vec<u8>>)
    ensures
        views(r@) == byte_lines(b@),
{
    let mut done: Vec<Vec<u8>> = Vec::new();
    let mut open: Vec<u8> = Vec::new();
    let mut i: usize = 0;
    while i < b.len()
        invariant
            i <= b@.len(),
            (views(done@), open@) == scan_lines(b@.take(i as int)),
        decreases b@.len() - i,
    {
        proof {
            assert(b@.take(i as int + 1).drop_last() =~= b@.take(i as int));
        }
        let c = b[i];
        if c == 10u8 {
            let line = strip_trailing_cr(open);
            let ghost before = done@;
            done.push(line);
            open = Vec::new();
            proof {
                assert(views(done@) =~= views(before).push(line@));
            }
        } else {
            open.push(c);
        }
        i = i + 1;
    }
    proof {
        assert(b@.take(b@.len() as int) =~= b@);
    }
    if open.len() > 0 {
        let ghost before = done@;
        let ghost last = open@;
        done.push(open);
        proof {
            assert(views(done@) =~= views(before).push(last));
        }
    }
    done
}

/// Turns raw output into text lines; with `drop_empty`, empty lines are left
/// out. Each line is decoded on its own, lossily.
pub fn normalize_output(b: &[u8], drop_empty: bool) -> (r: Vec<String>)
    ensures
        normalized(r@, b@, drop_empty),
{
    let lines = split_lines(b);
    let ghost all = byte_lines(b@);
    let mut out: Vec<String> = Vec::new();
    let ghost mut kept: Seq<Seq<u8>> = seq![];
    let mut i: usize = 0;
    while i < lines.len()
        invariant
            i <= lines@.len(),
            views(lines@) == all,
            kept == (if drop_empty {
                without_empty(all.take(i as int))
            } else {
                all.take(i as int)
            }),
            out@.len() == kept.len(),
            forall|k: int| 0 <= k < out@.len() ==> #[trigger] out@[k]@ == lossy_text(kept[k]),
        decreases lines@.len() - i,
    {
        proof {
            assert(all.take(i as int + 1).drop_last() =~= all.take(i as int));
            assert(lines@[i as int]@ == all[i as int]);
        }
        let l = &lines[i];
        if !drop_empty || l.len() > 0 {
            let t = decode_lossy(l.as_slice());
            out.push(t);
            proof {
                kept = kept.push(l@);
            }
        }
        i = i + 1;
        proof {
            if !drop_empty {
                assert(kept =~= all.take(i as int));
            }
        }
    }
    proof {
        assert(all.take(lines@.len() as int) =~= all);
    }
    out
}

} // verus!
