//! Normalizing an assembly listing for comparison: comment lines and
//! blank lines are dropped and the remaining lines are joined by single
//! line breaks.

use vstd::prelude::*;

verus! {

/// A line with one trailing carriage return removed, as line splitting
/// does before a line is inspected.
pub open spec fn trim_cr(line: Seq<char>) -> Seq<char> {
    if line.len() > 0 && line.last() == '\r' {
        line.drop_last()
    } else {
        line
    }
}

/// Whether a line survives the filter: non-empty and not a comment.
pub open spec fn keeps(line: Seq<char>) -> bool {
    line.len() > 0 && line[0] != ';'
}

/// The position of the line break that ends the line starting at `i`,
/// or the end of the sequence if no line break follows.
pub open spec fn line_end(s: Seq<char>, i: int) -> int
    decreases s.len() - i,
{
    if i >= s.len() {
        s.len() as int
    } else if s[i] == '\n' {
        i
    } else {
        line_end(s, i + 1)
    }
}

pub proof fn lemma_line_end_props(s: Seq<char>, i: int)
    requires
        0 <= i <= s.len(),
    ensures
        i <= line_end(s, i) <= s.len(),
        line_end(s, i) < s.len() ==> s[line_end(s, i)] == '\n',
        forall|k: int| i <= k < line_end(s, i) ==> s[k] != '\n',
    decreases s.len() - i,
{
    if i < s.len() && s[i] != '\n' {
        lemma_line_end_props(s, i + 1);
    }
}

/// The kept lines of the text from position `i` on: each line is cut at
/// its line break, trimmed of one trailing carriage return, and dropped
/// if it is empty or starts with the comment marker.
pub open spec fn kept_from(s: Seq<char>, i: int) -> Seq<Seq<char>>
    decreases s.len() - i,
    when 0 <= i
{
    if i >= s.len() {
        Seq::empty()
    } else {
        proof {
            lemma_line_end_props(s, i);
        }
        let e = line_end(s, i);
        let line = trim_cr(s.subrange(i, e));
        let rest = if e < s.len() {
            kept_from(s, e + 1)
        } else {
            Seq::empty()
        };
        if keeps(line) {
            seq![line] + rest
        } else {
            rest
        }
    }
}

/// The kept lines each trimmed once more and followed by a line break:
/// everything that precedes the last kept line in the final output.
pub open spec fn joined_prefix(lines: Seq<Seq<char>>) -> Seq<char>
    decreases lines.len(),
{
    if lines.len() == 0 {
        Seq::empty()
    } else {
        trim_cr(lines[0]) + seq!['\n'] + joined_prefix(lines.skip(1))
    }
}

/// The kept lines joined by single line breaks.  Every line but the
/// last loses one more trailing carriage return, which is the effect a
/// final left-to-right replacement of `"\r\n"` pairs has on the joined
/// text.
pub open spec fn join_kept(lines: Seq<Seq<char>>) -> Seq<char>
    decreases lines.len(),
{
    if lines.len() == 0 {
        Seq::empty()
    } else if lines.len() == 1 {
        lines[0]
    } else {
        trim_cr(lines[0]) + seq!['\n'] + join_kept(lines.skip(1))
    }
}

/// The normalized form of a listing.
pub open spec fn preprocess_text(s: Seq<char>) -> Seq<char> {
    join_kept(kept_from(s, 0))
}

proof fn lemma_joined_prefix_snoc(lines: Seq<Seq<char>>, line: Seq<char>)
    ensures
        joined_prefix(lines.push(line)) == joined_prefix(lines) + trim_cr(line) + seq!['\n'],
    decreases lines.len(),
{
    if lines.len() == 0 {
        assert(lines.push(line).len() == 1);
        assert(lines.push(line)[0] == line);
        assert(lines.push(line).skip(1) =~= lines);
        assert(joined_prefix(lines.push(line)) == trim_cr(line) + seq!['\n'] + joined_prefix(
            lines,
        ));
        assert(joined_prefix(lines) =~= Seq::<char>::empty());
        assert(joined_prefix(lines.push(line)) =~= joined_prefix(lines) + trim_cr(line)
            + seq!['\n']);
    } else {
        lemma_joined_prefix_snoc(lines.skip(1), line);
        assert(lines.push(line)[0] == lines[0]);
        assert(lines.push(line).skip(1) =~= lines.skip(1).push(line));
        assert(joined_prefix(lines.push(line)) =~= joined_prefix(lines) + trim_cr(line)
            + seq!['\n']);
    }
}

proof fn lemma_join_kept_split(lines: Seq<Seq<char>>)
    requires
        lines.len() > 0,
    ensures
        join_kept(lines) == joined_prefix(lines.drop_last()) + lines.last(),
    decreases lines.len(),
{
    if lines.len() == 1 {
        assert(lines.drop_last() =~= Seq::<Seq<char>>::empty());
        assert(join_kept(lines) =~= joined_prefix(lines.drop_last()) + lines.last());
    } else {
        lemma_join_kept_split(lines.skip(1));
        assert(lines.skip(1).drop_last() =~= lines.drop_last().skip(1));
        assert(lines.drop_last().len() > 0);
        assert(lines.drop_last()[0] == lines[0]);
        assert(join_kept(lines) =~= joined_prefix(lines.drop_last()) + lines.last());
    }
}

/// Normalize an assembly listing: drop comment lines (those starting
/// with `;`) and empty lines, and join what remains with single line
/// breaks.
pub fn preprocess_listing(listing: &str) -> (r: String)
    ensures
        r@ == preprocess_text(listing@),
{
    let n = listing.unicode_len();
    let mut result = String::new();
    let mut pending: Option<(usize, usize)> = None;
    let ghost mut emitted: Seq<Seq<char>> = Seq::empty();
    let mut i: usize = 0;
    while i < n
        invariant
            n == listing@.len(),
            i <= n,
            result@ == joined_prefix(emitted),
            pending matches Some(p) ==> p.0 <= p.1 <= n && kept_from(listing@, 0)
                == emitted.push(listing@.subrange(p.0 as int, p.1 as int)) + kept_from(
                listing@,
                i as int,
            ),
            pending is None ==> emitted == Seq::<Seq<char>>::empty() && kept_from(listing@, 0)
                == kept_from(listing@, i as int),
        decreases n - i,
    {
        let mut j = i;
        while j < n && listing.get_char(j) != '\n'
            invariant
                n == listing@.len(),
                i <= j <= n,
                forall|k: int| i <= k < j ==> listing@[k] != '\n',
            decreases n - j,
        {
            j = j + 1;
        }
        proof {
            lemma_line_end_props(listing@, i as int);
            let e = line_end(listing@, i as int);
            if e < j {
                assert(listing@[e] == '\n');
            }
            if j < e {
                assert(listing@[j as int] != '\n');
            }
            assert(e == j);
        }
        let line_to = if j > i && listing.get_char(j - 1) == '\r' {
            j - 1
        } else {
            j
        };
        let ghost raw_line = listing@.subrange(i as int, j as int);
        let ghost line = listing@.subrange(i as int, line_to as int);
        proof {
            if j > i && listing@[j - 1 as int] == '\r' {
                assert(raw_line.drop_last() =~= line);
            }
            assert(line == trim_cr(raw_line));
        }
        let kept = line_to > i && listing.get_char(i) != ';';
        proof {
            assert(kept == keeps(line));
        }
        let ghost rest = if j < n {
            kept_from(listing@, j + 1 as int)
        } else {
            Seq::<Seq<char>>::empty()
        };
        proof {
            assert(kept_from(listing@, i as int) == if keeps(line) {
                seq![line] + rest
            } else {
                rest
            });
        }
        if kept {
            match pending {
                Some(p) => {
                    let (ps, pe) = p;
                    let flush_to = if pe > ps && listing.get_char(pe - 1) == '\r' {
                        pe - 1
                    } else {
                        pe
                    };
                    let ghost pend = listing@.subrange(ps as int, pe as int);
                    proof {
                        if pe > ps && listing@[pe - 1 as int] == '\r' {
                            assert(pend.drop_last() =~= listing@.subrange(
                                ps as int,
                                flush_to as int,
                            ));
                        }
                        assert(listing@.subrange(ps as int, flush_to as int) == trim_cr(pend));
                    }
                    result.append(listing.substring_char(ps, flush_to));
                    result.append("\n");
                    proof {
                        reveal_strlit("\n");
                        lemma_joined_prefix_snoc(emitted, pend);
                        assert("\n"@ =~= seq!['\n']);
                        assert(result@ =~= joined_prefix(emitted.push(pend)));
                        emitted = emitted.push(pend);
                        assert(emitted.push(line) + rest =~= (emitted.drop_last()).push(pend)
                            + (seq![line] + rest));
                    }
                },
                None => {},
            }
            pending = Some((i, line_to));
        }
        proof {
            if !kept {
                assert(kept_from(listing@, i as int) == rest);
            }
        }
        i = if j < n {
            j + 1
        } else {
            n
        };
        proof {
            assert(kept_from(listing@, i as int) == rest);
        }
    }
    match pending {
        Some(p) => {
            let (ps, pe) = p;
            result.append(listing.substring_char(ps, pe));
            proof {
                let pend = listing@.subrange(ps as int, pe as int);
                assert(kept_from(listing@, i as int) =~= Seq::<Seq<char>>::empty());
                assert(kept_from(listing@, 0) =~= emitted.push(pend));
                lemma_join_kept_split(emitted.push(pend));
                assert(emitted.push(pend).drop_last() =~= emitted);
                assert(result@ =~= preprocess_text(listing@));
            }
        },
        None => {
            proof {
                assert(kept_from(listing@, 0) =~= Seq::<Seq<char>>::empty());
                assert(result@ =~= preprocess_text(listing@));
            }
        },
    }
    result
}

} // verus!
