//! Helpers of the immediate (`.NOW`) commands of the first generation.
use vstd::prelude::*;

use crate::redis_type::strings_view;
use crate::text::{decimal_nat, usize_to_decimal};
use crate::virtual_tables::{find_char, take_until};

verus! {

/// `Wrong number of arguments, it accepts <expected>, you provide <given>`.
pub open spec fn wrong_arguments_text(expected: usize, given: usize) -> Seq<char> {
    "Wrong number of arguments, it accepts "@ + decimal_nat(expected as nat) + ", you provide "@
        + decimal_nat(given as nat)
}

/// Accepts the arguments when there are exactly `lenght` of them; else the
/// error message for the client.
pub fn check_args<'a>(args: Vec<&'a str>, lenght: usize) -> (r: Result<Vec<&'a str>, String>)
    ensures
        args.len() == lenght ==> r == Ok::<Vec<&'a str>, String>(args),
        args.len() != lenght ==> r is Err && r->Err_0@ == wrong_arguments_text(lenght, args.len()),
{
    if args.len() == lenght {
        Ok(args)
    } else {
        let mut s = String::from_str("Wrong number of arguments, it accepts ");
        s.append(usize_to_decimal(lenght).as_str());
        s.append(", you provide ");
        s.append(usize_to_decimal(args.len()).as_str());
        Err(s)
    }
}

/// The pieces of a text between its newlines (one piece when it has none).
pub open spec fn split_lines(s: Seq<char>) -> Seq<Seq<char>>
    decreases s.len(),
{
    let first = take_until(s, '\n');
    if first.len() >= s.len() {
        seq![s]
    } else {
        seq![first] + split_lines(s.skip(first.len() + 1int))
    }
}

proof fn lemma_take_until_len(s: Seq<char>, c: char)
    ensures
        take_until(s, c).len() <= s.len(),
    decreases s.len(),
{
    if s.len() > 0 && s[0] != c {
        lemma_take_until_len(s.drop_first(), c);
    }
}

/// Splits a text at its newlines, as `str::split('\n')` does.
pub fn split_newlines(s: &str) -> (pieces: Vec<String>)
    ensures
        strings_view(pieces@) == split_lines(s@),
{
    let mut out: Vec<String> = Vec::new();
    let mut rest: &str = s;
    assert(strings_view(out@) =~= Seq::<Seq<char>>::empty());
    loop
        invariant_except_break
            strings_view(out@) + split_lines(rest@) == split_lines(s@),
        ensures
            strings_view(out@) == split_lines(s@),
        decreases rest@.len(),
    {
        let n = rest.unicode_len();
        let i = find_char(rest, '\n');
        if i == n {
            let ghost before = out@;
            out.push(String::from_str(rest));
            proof {
                assert(take_until(rest@, '\n') == rest@.take(n as int));
                assert(split_lines(rest@) == seq![rest@]);
                assert(strings_view(out@) =~= strings_view(before) + seq![rest@]);
                assert(strings_view(out@) == split_lines(s@));
            }
            break ;
        }
        let ghost before = out@;
        let ghost old_rest = rest@;
        out.push(String::from_str(rest.substring_char(0, i)));
        rest = rest.substring_char(i + 1, n);
        proof {
            assert(take_until(old_rest, '\n') == old_rest.take(i as int));
            assert(old_rest.subrange(0, i as int) =~= old_rest.take(i as int));
            assert(old_rest.subrange(i + 1, n as int) =~= old_rest.skip(i + 1));
            assert(split_lines(old_rest) == seq![old_rest.take(i as int)] + split_lines(rest@));
            assert(strings_view(out@) =~= strings_view(before).push(old_rest.take(i as int)));
            assert(strings_view(out@) + split_lines(rest@) =~= strings_view(before) + split_lines(
                old_rest,
            ));
        }
    }
    out
}

/// The lines of a database dump, read from a pipe in chunks: the lines of
/// the last chunk that are still to be handed out, front first, and the
/// piece after the chunk's last newline, carried over to the next chunk.
pub struct DumpIterator {
    pending: Vec<String>,
    first_chunk: String,
}

impl View for DumpIterator {
    /// (pending lines, front first; carried piece)
    type V = (Seq<Seq<char>>, Seq<char>);

    closed spec fn view(&self) -> (Seq<Seq<char>>, Seq<char>) {
        (strings_view(self.pending@).reverse(), self.first_chunk@)
    }
}

/// The state after a chunk was read: the line handed out now, the lines
/// after it, and the piece carried over. A chunk without newline is handed
/// out whole, and nothing is carried.
pub open spec fn spec_take_chunk(carry: Seq<char>, chunk: Seq<char>) -> (
    Seq<char>,
    Seq<Seq<char>>,
    Seq<char>,
) {
    let pieces = split_lines(chunk);
    if pieces.len() >= 2 {
        (carry + pieces[0], pieces.subrange(1, pieces.len() - 1), pieces.last())
    } else {
        (carry + pieces[0], Seq::empty(), Seq::empty())
    }
}

proof fn lemma_split_lines_nonempty(s: Seq<char>)
    ensures
        split_lines(s).len() >= 1,
    decreases s.len(),
{
    lemma_take_until_len(s, '\n');
}

impl DumpIterator {
    pub fn new() -> (d: Self)
        ensures
            d@.0.len() == 0,
            d@.1.len() == 0,
    {
        let d = DumpIterator { pending: Vec::new(), first_chunk: String::new() };
        assert(d@.0 =~= Seq::<Seq<char>>::empty());
        d
    }

    /// The next line of the current chunk, if one is left.
    pub fn next_pending(&mut self) -> (r: Option<String>)
        ensures
            old(self)@.0.len() == 0 ==> r is None && final(self)@ == old(self)@,
            old(self)@.0.len() > 0 ==> r is Some && r->Some_0@ == old(self)@.0[0] && final(self)@
                == (old(self)@.0.drop_first(), old(self)@.1),
    {
        let ghost before = self.pending@;
        let r = self.pending.pop();
        proof {
            if before.len() > 0 {
                assert(strings_view(self.pending@).reverse() =~= strings_view(before).reverse().drop_first());
            }
        }
        r
    }

    /// Takes a chunk read from the pipe when no line is pending, and hands
    /// out its first line, completed by the piece carried over.
    pub fn take_chunk(&mut self, chunk: &str) -> (line: String)
        requires
            old(self)@.0.len() == 0,
        ensures
            ({
                let (l, p, c) = spec_take_chunk(old(self)@.1, chunk@);
                line@ == l && final(self)@ == (p, c)
            }),
    {
        let pieces = split_newlines(chunk);
        let ghost pv = strings_view(pieces@);
        proof {
            lemma_split_lines_nonempty(chunk@);
        }
        let n = pieces.len();
        let mut line = String::from_str(self.first_chunk.as_str());
        line.append(pieces[0].as_str());
        let mut pending: Vec<String> = Vec::new();
        if n >= 2 {
            self.first_chunk = pieces[n - 1].clone();
            let mut k: usize = n - 1;
            while k > 1
                invariant
                    1 <= k <= n - 1,
                    n == pieces.len(),
                    pv == strings_view(pieces@),
                    strings_view(pending@).reverse() == pv.subrange(k as int, n - 1),
                decreases k,
            {
                k = k - 1;
                let ghost before = pending@;
                pending.push(pieces[k].clone());
                proof {
                    assert(strings_view(pending@) =~= strings_view(before).push(pv[k as int]));
                    assert(strings_view(pending@).reverse() =~= seq![pv[k as int]] + strings_view(
                        before,
                    ).reverse());
                    assert(pv.subrange(k as int, n - 1) =~= seq![pv[k as int]] + pv.subrange(
                        k + 1,
                        n - 1,
                    ));
                }
            }
        } else {
            self.first_chunk = String::new();
            assert(strings_view(pending@).reverse() =~= Seq::<Seq<char>>::empty());
        }
        self.pending = pending;
        line
    }
}

/// Pieces joined back together, a newline between each two.
pub open spec fn join_lines(pieces: Seq<Seq<char>>) -> Seq<char>
    decreases pieces.len(),
{
    if pieces.len() == 0 {
        Seq::empty()
    } else if pieces.len() == 1 {
        pieces[0]
    } else {
        pieces[0] + seq!['\n'] + join_lines(pieces.drop_first())
    }
}

proof fn lemma_take_until_cut(s: Seq<char>, c: char)
    ensures
        take_until(s, c).len() >= s.len() ==> take_until(s, c) == s,
        take_until(s, c).len() < s.len() ==> s == take_until(s, c) + seq![c] + s.skip(
            take_until(s, c).len() + 1int,
        ),
    decreases s.len(),
{
    if s.len() == 0 {
        assert(take_until(s, c) =~= s);
    } else if s[0] == c {
        assert(s =~= Seq::<char>::empty() + seq![c] + s.skip(1));
    } else {
        let t = s.drop_first();
        lemma_take_until_cut(t, c);
        lemma_take_until_len(t, c);
        if take_until(t, c).len() >= t.len() {
            assert(take_until(s, c) =~= s);
        } else {
            let n = take_until(t, c).len();
            assert(t.skip(n + 1int) =~= s.skip(n + 2int));
            assert(s =~= seq![s[0]] + t);
            assert(s =~= take_until(s, c) + seq![c] + s.skip(take_until(s, c).len() + 1int));
        }
    }
}

/// Splitting a text at its newlines loses nothing: the pieces, joined back
/// with newlines, are the text.
pub proof fn law_split_lines_rejoin(s: Seq<char>)
    ensures
        join_lines(split_lines(s)) == s,
    decreases s.len(),
{
    let first = take_until(s, '\n');
    lemma_take_until_cut(s, '\n');
    if first.len() < s.len() {
        let rest = s.skip(first.len() + 1int);
        law_split_lines_rejoin(rest);
        lemma_split_lines_nonempty(rest);
        let pieces = split_lines(s);
        assert(pieces == seq![first] + split_lines(rest));
        assert(pieces.drop_first() =~= split_lines(rest));
        assert(join_lines(pieces) == first + seq!['\n'] + join_lines(split_lines(rest)));
    }
}

/// Reading a chunk of a dump loses nothing: the line handed out, the lines
/// still to hand out and the piece carried over, joined back with
/// newlines, are the piece carried before followed by the chunk.
pub proof fn law_chunk_keeps_text(carry: Seq<char>, chunk: Seq<char>)
    ensures
        ({
            let (line, pending, next_carry) = spec_take_chunk(carry, chunk);
            if split_lines(chunk).len() >= 2 {
                join_lines(seq![line] + pending + seq![next_carry]) == carry + chunk
            } else {
                line == carry + chunk && pending.len() == 0 && next_carry.len() == 0
            }
        }),
{
    law_split_lines_rejoin(chunk);
    lemma_split_lines_nonempty(chunk);
    let pieces = split_lines(chunk);
    if pieces.len() >= 2 {
        let (line, pending, next_carry) = spec_take_chunk(carry, chunk);
        let all = seq![line] + pending + seq![next_carry];
        assert(all.drop_first() =~= pieces.drop_first());
        assert(join_lines(all) == line + seq!['\n'] + join_lines(pieces.drop_first()));
        assert(join_lines(pieces) == pieces[0] + seq!['\n'] + join_lines(pieces.drop_first()));
        assert(join_lines(all) =~= carry + chunk);
    } else {
        assert(join_lines(pieces) == pieces[0]);
    }
}

/// The lines of a dump that go to the append-only file: the non-empty
/// pieces between newlines.
pub open spec fn aof_lines(s: Seq<char>) -> Seq<Seq<char>> {
    split_lines(s).filter(|l: Seq<char>| l.len() > 0)
}

/// The non-empty lines of a piece of a dump, in order.
pub fn non_empty_lines(s: &str) -> (lines: Vec<String>)
    ensures
        strings_view(lines@) == aof_lines(s@),
{
    let pieces = split_newlines(s);
    let ghost pv = strings_view(pieces@);
    let mut out: Vec<String> = Vec::new();
    let mut i: usize = 0;
    assert(pv.take(0) =~= Seq::<Seq<char>>::empty());
    assert(strings_view(out@) =~= Seq::<Seq<char>>::empty());
    while i < pieces.len()
        invariant
            i <= pieces.len(),
            pv == strings_view(pieces@),
            strings_view(out@) == pv.take(i as int).filter(|l: Seq<char>| l.len() > 0),
        decreases pieces.len() - i,
    {
        let ghost before = out@;
        assert(pv.take(i + 1).drop_last() =~= pv.take(i as int));
        assert(pv.take(i + 1).last() == pieces[i as int]@);
        reveal_with_fuel(Seq::<_>::filter, 1);
        if !pieces[i].as_str().is_empty() {
            out.push(pieces[i].clone());
            assert(strings_view(out@) =~= strings_view(before).push(pieces[i as int]@));
        }
        i = i + 1;
    }
    assert(pv.take(pieces.len() as int) =~= pv);
    out
}

} // verus!
