use crate::errors::Error;
use vstd::prelude::*;
use vstd::string::StringExecFns;

verus! {

/// The base-1000 digit groups of `n`, least-significant first. A value
/// of zero (or below) gives the empty sequence, the signal the
/// renderers use for the literal word for zero.
pub open spec fn spec_triplets(n: int) -> Seq<int>
    decreases n,
{
    if n <= 0 {
        Seq::empty()
    } else {
        seq![n % 1000] + spec_triplets(n / 1000)
    }
}

/// Every produced triplet lies in `[0, 1000)`, and a positive value
/// produces at least one triplet whose most significant group is
/// nonzero.
pub proof fn lemma_triplets_shape(n: int)
    requires
        n > 0,
    ensures
        spec_triplets(n).len() >= 1,
        spec_triplets(n).last() != 0,
        forall|i: int| 0 <= i < spec_triplets(n).len() ==> 0 <= #[trigger] spec_triplets(n)[i] < 1000,
    decreases n,
{
    let rest = spec_triplets(n / 1000);
    assert(spec_triplets(n) == seq![n % 1000] + rest);
    if n / 1000 > 0 {
        lemma_triplets_shape(n / 1000);
        assert((seq![n % 1000] + rest).last() == rest.last());
        assert(forall|i: int|
            1 <= i < spec_triplets(n).len() ==> #[trigger] spec_triplets(n)[i] == rest[i - 1]);
    } else {
        assert(rest =~= Seq::empty());
        assert(spec_triplets(n).len() == 1);
        assert(spec_triplets(n)[0] == n % 1000);
        assert(n % 1000 == n);
    }
}

/// The words of a rendered phrase joined with single spaces.
pub open spec fn join_words(ws: Seq<Seq<char>>) -> Seq<char>
    decreases ws.len(),
{
    if ws.len() == 0 {
        Seq::empty()
    } else if ws.len() == 1 {
        ws[0]
    } else {
        join_words(ws.drop_last()) + " "@ + ws.last()
    }
}

/// The character sequences denoted by a sequence of owned strings.
pub open spec fn views_of(ws: Seq<String>) -> Seq<Seq<char>> {
    ws.map_values(|w: String| w@)
}

/// Appending one word extends the joined phrase by a space and the
/// word, except that the first word needs no separator.
pub proof fn lemma_join_push(ws: Seq<Seq<char>>, w: Seq<char>)
    ensures
        join_words(ws.push(w)) == if ws.len() == 0 {
            w
        } else {
            join_words(ws) + " "@ + w
        },
{
    assert(ws.push(w).drop_last() =~= ws);
}

/// Joins the accumulated words with single spaces.
pub fn join_with_spaces(words: &Vec<String>) -> (r: String)
    ensures
        r@ == join_words(views_of(words@)),
{
    let ghost ws = views_of(words@);
    let mut out = String::new();
    let mut i: usize = 0;
    while i < words.len()
        invariant
            0 <= i <= words.len(),
            ws == views_of(words@),
            out@ == join_words(ws.take(i as int)),
        decreases words.len() - i,
    {
        if i > 0 {
            out.append(" ");
        }
        out.append(words[i].as_str());
        proof {
            lemma_join_push(ws.take(i as int), ws[i as int]);
            assert(ws.take(i as int).push(ws[i as int]) =~= ws.take(i as int + 1));
            if i == 0 {
                assert(Seq::<char>::empty() + ws[0] =~= ws[0]);
            }
        }
        i = i + 1;
    }
    proof {
        assert(ws.take(words@.len() as int) =~= ws);
    }
    out
}

/// Splits a non-negative integer into its base-1000 triplets,
/// least-significant first; zero or a negative value gives an empty
/// vector. The conversion cannot fail for a 64-bit input, so the
/// result is always `Ok`.
pub fn int_to_triplets(number: i64) -> (r: Result<Vec<i64>, Error>)
    ensures
        (r matches Ok(v) && v@.map_values(|t: i64| t as int) == spec_triplets(number as int)),
{
    let ghost n0 = number as int;
    let mut triplets: Vec<i64> = Vec::new();
    let mut number = number;
    proof {
        assert(triplets@.map_values(|t: i64| t as int) + spec_triplets(n0) =~= spec_triplets(n0));
    }
    while number > 0
        invariant
            number >= 0 || triplets@.len() == 0,
            triplets@.map_values(|t: i64| t as int) + spec_triplets(number as int) == spec_triplets(
                n0,
            ),
        decreases number,
    {
        let ghost pre = triplets@.map_values(|t: i64| t as int);
        let t = number % 1000;
        triplets.push(t);
        number = number / 1000;
        proof {
            assert(triplets@.map_values(|t: i64| t as int) =~= pre.push(t as int));
            assert(pre.push(t as int) + spec_triplets(number as int) =~= pre + (seq![t as int]
                + spec_triplets(number as int)));
        }
    }
    proof {
        assert(triplets@.map_values(|t: i64| t as int) + Seq::<int>::empty() =~= triplets@
            .map_values(|t: i64| t as int));
    }
    Ok(triplets)
}

/// Splits an unsigned magnitude into its base-1000 triplets,
/// least-significant first. The renderers widen their signed input to
/// `u64` before decomposing, so even the most negative input has a
/// representable magnitude.
pub(crate) fn u64_to_triplets(n: u64) -> (v: Vec<u64>)
    ensures
        v@.map_values(|t: u64| t as int) == spec_triplets(n as int),
        forall|i: int| 0 <= i < v@.len() ==> #[trigger] v@[i] < 1000,
{
    let ghost n0 = n as int;
    let mut triplets: Vec<u64> = Vec::new();
    let mut n = n;
    proof {
        assert(triplets@.map_values(|t: u64| t as int) + spec_triplets(n0) =~= spec_triplets(n0));
    }
    while n > 0
        invariant
            triplets@.map_values(|t: u64| t as int) + spec_triplets(n as int) == spec_triplets(n0),
            forall|i: int| 0 <= i < triplets@.len() ==> #[trigger] triplets@[i] < 1000,
        decreases n,
    {
        let ghost pre = triplets@.map_values(|t: u64| t as int);
        let t = n % 1000;
        triplets.push(t);
        n = n / 1000;
        proof {
            assert(triplets@.map_values(|t: u64| t as int) =~= pre.push(t as int));
            assert(pre.push(t as int) + spec_triplets(n as int) =~= pre + (seq![t as int]
                + spec_triplets(n as int)));
        }
    }
    proof {
        assert(triplets@.map_values(|t: u64| t as int) + Seq::<int>::empty() =~= triplets@
            .map_values(|t: u64| t as int));
    }
    triplets
}

} // verus!
