use vstd::prelude::*;
use vstd::string::*;
use multiaddr::Multiaddr;
use crate::response::WakuError;

verus! {

#[verifier::external_type_specification]
#[verifier::external_body]
pub struct ExMultiaddr(multiaddr::Multiaddr);

#[verifier::external_type_specification]
#[verifier::external_body]
pub struct ExMultiaddrError(multiaddr::Error);

/// Whether a text is a well-formed multiaddress.
pub uninterp spec fn multiaddr_parses(s: Seq<char>) -> bool;

/// Relies on multiaddr's `FromStr for Multiaddr`: whether parsing succeeds
/// depends on the text alone.
#[verifier::external_body]
fn parse_multiaddr(s: &str) -> (r: Result<Multiaddr, multiaddr::Error>)
    ensures
        r.is_ok() == multiaddr_parses(s@),
{
    s.parse::<Multiaddr>()
}

/// The pieces of a text between its commas.
pub open spec fn split_commas(s: Seq<char>) -> Seq<Seq<char>>
    decreases s.len(),
{
    if s.len() == 0 {
        seq![Seq::<char>::empty()]
    } else {
        let parts = split_commas(s.drop_last());
        if s.last() == ',' {
            parts.push(Seq::<char>::empty())
        } else {
            parts.update(parts.len() - 1, parts.last().push(s.last()))
        }
    }
}

proof fn lemma_split_commas_nonempty(s: Seq<char>)
    ensures
        split_commas(s).len() >= 1,
    decreases s.len(),
{
    if s.len() > 0 {
        lemma_split_commas_nonempty(s.drop_last());
    }
}

/// The comma-separated pieces of a text.
pub fn split_on_commas(s: &str) -> (r: Vec<String>)
    ensures
        r@.len() == split_commas(s@).len(),
        forall|k: int| 0 <= k < r@.len() ==> #[trigger] r@[k]@ == split_commas(s@)[k],
{
    let n = s.unicode_len();
    let mut parts: Vec<String> = Vec::new();
    let mut start: usize = 0;
    let mut i: usize = 0;
    while i < n
        invariant
            n == s@.len(),
            start <= i <= n,
            parts@.len() + 1 == split_commas(s@.take(i as int)).len(),
            forall|k: int|
                0 <= k < parts@.len() ==> #[trigger] parts@[k]@ == split_commas(
                    s@.take(i as int),
                )[k],
            split_commas(s@.take(i as int)).last() == s@.subrange(start as int, i as int),
        decreases n - i,
    {
        let c = s.get_char(i);
        let ghost before = split_commas(s@.take(i as int));
        assert(s@.take(i + 1).drop_last() =~= s@.take(i as int));
        assert(s@.take(i + 1).last() == c);
        proof {
            lemma_split_commas_nonempty(s@.take(i as int));
        }
        if c == ',' {
            let piece = s.substring_char(start, i);
            parts.push(String::from_str(piece));
            start = i + 1;
            assert(s@.subrange(start as int, i + 1) =~= Seq::<char>::empty());
        } else {
            assert(s@.subrange(start as int, i + 1) =~= s@.subrange(start as int, i as int).push(c));
        }
        i = i + 1;
    }
    assert(s@.take(n as int) =~= s@);
    let last = s.substring_char(start, n);
    parts.push(String::from_str(last));
    parts
}

/// Reads the engine's comma-separated list of listen addresses.
pub fn decode_listen_addresses(payload: &str) -> (r: Result<Vec<Multiaddr>, WakuError>)
    ensures
        r.is_ok() <==> forall|k: int|
            0 <= k < split_commas(payload@).len() ==> multiaddr_parses(
                #[trigger] split_commas(payload@)[k],
            ),
        r.is_ok() ==> r.unwrap()@.len() == split_commas(payload@).len(),
        r.is_err() ==> r.unwrap_err() is Decode,
{
    let parts = split_on_commas(payload);
    let mut addrs: Vec<Multiaddr> = Vec::new();
    let mut i: usize = 0;
    while i < parts.len()
        invariant
            i <= parts@.len(),
            parts@.len() == split_commas(payload@).len(),
            forall|k: int| 0 <= k < parts@.len() ==> #[trigger] parts@[k]@ == split_commas(payload@)[k],
            addrs@.len() == i,
            forall|k: int| 0 <= k < i ==> multiaddr_parses(#[trigger] split_commas(payload@)[k]),
        decreases parts@.len() - i,
    {
        match parse_multiaddr(parts[i].as_str()) {
            Ok(a) => addrs.push(a),
            Err(e) => {
                assert(!multiaddr_parses(split_commas(payload@)[i as int]));
                return Err(WakuError::Decode(e.to_string()));
            },
        }
        i = i + 1;
    }
    Ok(addrs)
}

} // verus!
