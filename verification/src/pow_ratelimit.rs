//! The proof-of-work gate: the puzzle that a payload poses, and the framing
//! of a proof as big-endian 32-bit edge indices.

use vstd::prelude::*;
use crate::b64::{base64_decoded, base64_text, decode, encodable, encode, DecodeError};

verus! {

/// Size of the node space of every puzzle.
pub const MAX_VERTEX: usize = 16;

/// Edges per payload byte.
pub const EDGES_PER_BYTE: usize = 8;

/// Length of the cycle that a proof must show.
pub const CYCLE_LENGTH: usize = 6;

/// The parameters of a cycle puzzle.
#[derive(Debug, Clone, Copy, PartialEq, Eq, Structural)]
pub struct CuckooParams {
    pub max_vertex: usize,
    pub max_edge: usize,
    pub cycle_length: usize,
}

/// The puzzle of a payload of `len` bytes: a fixed node space and cycle
/// length, and an edge space that grows with the payload.
pub open spec fn params_for(len: nat) -> CuckooParams {
    CuckooParams {
        max_vertex: MAX_VERTEX,
        max_edge: (EDGES_PER_BYTE * len) as usize,
        cycle_length: CYCLE_LENGTH,
    }
}

/// The puzzle parameters for a payload of `data_bytes_len` bytes.
pub fn cuckoo_params(data_bytes_len: usize) -> (params: CuckooParams)
    requires
        EDGES_PER_BYTE * data_bytes_len <= usize::MAX,
    ensures
        params == params_for(data_bytes_len as nat),
        params.max_edge == EDGES_PER_BYTE * data_bytes_len,
{
    CuckooParams {
        max_vertex: MAX_VERTEX,
        max_edge: EDGES_PER_BYTE * data_bytes_len,
        cycle_length: CYCLE_LENGTH,
    }
}

/// Why a request's proof of work could not be read.
#[derive(Debug, Clone, Copy, PartialEq, Eq, Structural)]
pub enum PowVerifErr {
    /// The payload is not base64.
    B64DecodeBody(DecodeError),
    /// The proof is not base64.
    B64DecodePowProof(DecodeError),
    /// The proof's bytes are not a whole number of 32-bit words.
    Vec8toVec32,
}

/// The big-endian value of four bytes.
pub open spec fn be_u32(b0: u8, b1: u8, b2: u8, b3: u8) -> u32 {
    ((b0 as u32) << 24) | ((b1 as u32) << 16) | ((b2 as u32) << 8) | (b3 as u32)
}

/// The `i`-th big-endian word of `bytes`.
pub open spec fn be_word(bytes: Seq<u8>, i: int) -> u32 {
    be_u32(bytes[4 * i], bytes[4 * i + 1], bytes[4 * i + 2], bytes[4 * i + 3])
}

/// The words that `bytes` packs, four bytes each, most significant first.
pub open spec fn be_words(bytes: Seq<u8>) -> Seq<u32> {
    Seq::new((bytes.len() / 4) as nat, |i: int| be_word(bytes, i))
}

/// The four bytes of `n`, most significant first.
pub open spec fn be_bytes(n: u32) -> Seq<u8> {
    seq![
        ((n >> 24) & 0xff) as u8,
        ((n >> 16) & 0xff) as u8,
        ((n >> 8) & 0xff) as u8,
        (n & 0xff) as u8,
    ]
}

/// The bytes that pack `words`, four bytes each, most significant first.
pub open spec fn be_packed(words: Seq<u32>) -> Seq<u8> {
    Seq::new(4 * words.len(), |k: int| be_bytes(words[k / 4])[k % 4])
}

/// Calls `BigEndian::read_u32_into` of `byteorder`. Trusted: every word of
/// `dst` becomes the big-endian value of its four bytes of `src`. The crate
/// panics unless `src` holds four bytes for each word of `dst`, which
/// `requires` leaves out.
#[verifier::external_body]
fn read_u32_into(src: &[u8], dst: &mut Vec<u32>)
    requires
        src@.len() == 4 * old(dst)@.len(),
    ensures
        final(dst)@.len() == old(dst)@.len(),
        forall|i: int| 0 <= i < final(dst)@.len() ==> #[trigger] final(dst)@[i] == be_word(src@, i),
{
    <byteorder::BigEndian as byteorder::ByteOrder>::read_u32_into(src, dst)
}

/// Calls `WriteBytesExt::write_u32` of `byteorder`, big-endian, on a `Vec`.
/// Trusted: the four bytes of `n` are appended, most significant first. A
/// write to a `Vec` does not fail.
#[verifier::external_body]
fn write_u32(out: &mut Vec<u8>, n: u32)
    ensures
        final(out)@ == old(out)@ + be_bytes(n),
{
    let _ = byteorder::WriteBytesExt::write_u32::<byteorder::BigEndian>(out, n);
}

/// Reads `vec8` as big-endian 32-bit words. A length that is no multiple of
/// four is refused before any byte is read.
pub fn vec8tovec32(vec8: &[u8]) -> (res: Result<Vec<u32>, PowVerifErr>)
    ensures
        vec8@.len() % 4 != 0 ==> res is Err && res->Err_0 == PowVerifErr::Vec8toVec32,
        vec8@.len() % 4 == 0 ==> res is Ok && res->Ok_0@ == be_words(vec8@),
{
    if vec8.len() % 4 != 0 {
        return Err(PowVerifErr::Vec8toVec32);
    }
    let n: usize = vec8.len() / 4;
    let mut vec32: Vec<u32> = Vec::new();
    let mut i: usize = 0;
    while i < n
        invariant
            i <= n,
            vec32@.len() == i,
        decreases n - i,
    {
        vec32.push(0);
        i = i + 1;
    }
    read_u32_into(vec8, &mut vec32);
    assert(vec32@ =~= be_words(vec8@));
    Ok(vec32)
}

/// Packs `vec32` as big-endian bytes, four for each word.
pub fn vec32tovec8(vec32: &Vec<u32>) -> (vec8: Vec<u8>)
    ensures
        vec8@ == be_packed(vec32@),
{
    let mut vec8: Vec<u8> = Vec::new();
    let mut i: usize = 0;
    while i < vec32.len()
        invariant
            i <= vec32@.len(),
            vec8@ == be_packed(vec32@.take(i as int)),
        decreases vec32@.len() - i,
    {
        write_u32(&mut vec8, vec32[i]);
        assert(vec8@ =~= be_packed(vec32@.take(i + 1)));
        i = i + 1;
    }
    assert(vec32@.take(i as int) =~= vec32@);
    vec8
}

/// Packing then reading gives the words back.
pub proof fn lemma_packed_words_read_back(words: Seq<u32>)
    ensures
        be_packed(words).len() == 4 * words.len(),
        be_words(be_packed(words)) == words,
{
    let bytes = be_packed(words);
    assert forall|i: int| 0 <= i < words.len() implies be_word(bytes, i) == words[i] by {
        let n = words[i];
        assert(bytes[4 * i] == be_bytes(n)[0]);
        assert(bytes[4 * i + 1] == be_bytes(n)[1]);
        assert(bytes[4 * i + 2] == be_bytes(n)[2]);
        assert(bytes[4 * i + 3] == be_bytes(n)[3]);
        assert(be_u32(
            ((n >> 24) & 0xff) as u8,
            ((n >> 16) & 0xff) as u8,
            ((n >> 8) & 0xff) as u8,
            (n & 0xff) as u8,
        ) == n) by (bit_vector);
    }
    assert(be_words(bytes) =~= words);
}

/// A request's puzzle, read and ready for the cycle check: the payload that
/// seeds the graph and the edge indices that the proof names.
#[derive(Debug, Clone, PartialEq, Eq)]
pub struct PowPuzzle {
    pub data: Vec<u8>,
    pub proof: Vec<u32>,
}

impl PowPuzzle {
    /// The parameters of the graph that the payload seeds, or `None` where
    /// the edge space would not fit the machine's word.
    pub fn params(&self) -> (res: Option<CuckooParams>)
        ensures
            EDGES_PER_BYTE * self.data@.len() <= usize::MAX ==> res == Some(
                params_for(self.data@.len()),
            ),
            EDGES_PER_BYTE * self.data@.len() > usize::MAX ==> res is None,
    {
        if self.data.len() <= usize::MAX / EDGES_PER_BYTE {
            Some(cuckoo_params(self.data.len()))
        } else {
            None
        }
    }

    /// Whether the proof can show a cycle at all, whatever the graph: it
    /// names as many edges as the cycle is long, each inside the edge space
    /// of the payload, and none twice.
    pub fn names_distinct_edges(&self) -> (res: bool)
        ensures
            res == distinct_edges_in(self.proof@, EDGES_PER_BYTE * self.data@.len()),
    {
        if self.proof.len() != CYCLE_LENGTH {
            return false;
        }
        let max_edge: u128 = (EDGES_PER_BYTE as u128) * (self.data.len() as u128);
        let mut i: usize = 0;
        while i < CYCLE_LENGTH
            invariant
                i <= CYCLE_LENGTH,
                self.proof@.len() == CYCLE_LENGTH,
                max_edge == EDGES_PER_BYTE * self.data@.len(),
                forall|a: int| 0 <= a < i ==> (#[trigger] self.proof@[a]) < max_edge,
                forall|a: int, b: int|
                    0 <= a < b < i ==> #[trigger] self.proof@[a] != #[trigger] self.proof@[b],
            decreases CYCLE_LENGTH - i,
        {
            if (self.proof[i] as u128) >= max_edge {
                return false;
            }
            let mut j: usize = 0;
            while j < i
                invariant
                    j <= i < CYCLE_LENGTH,
                    self.proof@.len() == CYCLE_LENGTH,
                    forall|a: int| 0 <= a < j ==> #[trigger] self.proof@[a] != self.proof@[i as int],
                decreases i - j,
            {
                if self.proof[j] == self.proof[i] {
                    return false;
                }
                j = j + 1;
            }
            i = i + 1;
        }
        true
    }
}

/// `proof` names exactly `CYCLE_LENGTH` edges, each below `max_edge`, no
/// edge twice.
pub open spec fn distinct_edges_in(proof: Seq<u32>, max_edge: int) -> bool {
    &&& proof.len() == CYCLE_LENGTH
    &&& forall|a: int| 0 <= a < proof.len() ==> (#[trigger] proof[a]) < max_edge
    &&& forall|a: int, b: int| 0 <= a < b < proof.len() ==> #[trigger] proof[a] != #[trigger] proof[b]
}

/// What reading a request's two base64 fields gives: the payload's fault
/// first, then the proof's, then a proof that is no whole number of words.
pub open spec fn pow_puzzle_of(
    data: Result<Seq<u8>, DecodeError>,
    proof: Result<Seq<u8>, DecodeError>,
) -> Result<(Seq<u8>, Seq<u32>), PowVerifErr> {
    match (data, proof) {
        (Err(e), _) => Err(PowVerifErr::B64DecodeBody(e)),
        (Ok(_), Err(e)) => Err(PowVerifErr::B64DecodePowProof(e)),
        (Ok(d), Ok(p)) => if p.len() % 4 != 0 {
            Err(PowVerifErr::Vec8toVec32)
        } else {
            Ok((d, be_words(p)))
        },
    }
}

/// Reads the payload and the proof of a request from their base64 text.
/// A text that is not base64, or a proof whose length is no multiple of
/// four bytes, is a fault of the request; whether the proof shows a cycle
/// is not decided here.
pub fn pow_puzzle(data_base64: &str, pow_proof_base64: &str) -> (res: Result<PowPuzzle, PowVerifErr>)
    ensures
        match pow_puzzle_of(base64_decoded(data_base64@), base64_decoded(pow_proof_base64@)) {
            Ok((d, p)) => res is Ok && res->Ok_0.data@ == d && res->Ok_0.proof@ == p,
            Err(e) => res is Err && res->Err_0 == e,
        },
{
    let data = match decode(data_base64) {
        Ok(bytes) => bytes,
        Err(e) => {
            return Err(PowVerifErr::B64DecodeBody(e));
        },
    };
    let pow_proof_bytes = match decode(pow_proof_base64) {
        Ok(bytes) => bytes,
        Err(e) => {
            return Err(PowVerifErr::B64DecodePowProof(e));
        },
    };
    let proof = vec8tovec32(pow_proof_bytes.as_slice())?;
    Ok(PowPuzzle { data, proof })
}

/// `answer` is what `cycle_check` says of the puzzle with the payload
/// `data` and the edges `proof`.
pub open spec fn answers<F: Fn(&PowPuzzle) -> bool>(cycle_check: F, data: Seq<u8>, proof: Seq<u32>, answer: bool) -> bool {
    exists|puzzle: &PowPuzzle|
        puzzle.data@ == data && puzzle.proof@ == proof && #[trigger] call_ensures(cycle_check, (puzzle,), answer)
}

/// What the cycle check made of a request that could be read: `pow_ok` is
/// its answer where the proof names six distinct edges of the payload's edge
/// space, and false for every other proof.
pub open spec fn pow_answer<F: Fn(&PowPuzzle) -> bool>(
    cycle_check: F,
    data: Result<Seq<u8>, DecodeError>,
    proof: Result<Seq<u8>, DecodeError>,
    pow_ok: bool,
) -> bool {
    match pow_puzzle_of(data, proof) {
        Err(_) => true,
        Ok((d, p)) => if distinct_edges_in(p, EDGES_PER_BYTE * d.len()) {
            answers(cycle_check, d, p, pow_ok)
        } else {
            !pow_ok
        },
    }
}

/// What `verify_pow` makes of the two texts of a request: the fault of a
/// request that cannot be read, else the answer for its proof.
pub open spec fn pow_verified<F: Fn(&PowPuzzle) -> bool>(
    cycle_check: F,
    data_base64: Seq<char>,
    pow_proof_base64: Seq<char>,
    res: Result<bool, PowVerifErr>,
) -> bool {
    match pow_puzzle_of(base64_decoded(data_base64), base64_decoded(pow_proof_base64)) {
        Err(e) => res is Err && res->Err_0 == e,
        Ok(_) => res is Ok && pow_answer(
            cycle_check,
            base64_decoded(data_base64),
            base64_decoded(pow_proof_base64),
            res->Ok_0,
        ),
    }
}

/// Whether the proof of a request shows a cycle in the graph that its
/// payload seeds. `cycle_check` answers for the graph; it is asked only of a
/// proof that names six distinct edges of the payload's edge space, and its
/// answer is the result. Every other proof that can be read shows no cycle.
/// A request that cannot be read is an error, not a failed proof.
pub fn verify_pow<F: Fn(&PowPuzzle) -> bool>(
    data_base64: &str,
    pow_proof_base64: &str,
    cycle_check: F,
) -> (res: Result<bool, PowVerifErr>)
    requires
        forall|puzzle: &PowPuzzle| call_requires(cycle_check, (puzzle,)),
    ensures
        pow_verified(cycle_check, data_base64@, pow_proof_base64@, res),
{
    let puzzle = match pow_puzzle(data_base64, pow_proof_base64) {
        Ok(puzzle) => puzzle,
        Err(e) => {
            return Err(e);
        },
    };
    if !puzzle.names_distinct_edges() {
        return Ok(false);
    }
    let verif_ok = cycle_check(&puzzle);
    assert(answers(cycle_check, puzzle.data@, puzzle.proof@, verif_ok)) by {
        assert(call_ensures(cycle_check, (&puzzle,), verif_ok));
    }
    Ok(verif_ok)
}

/// `cycle_check` answers by what a puzzle holds, and by nothing else: of
/// two puzzles with the same payload and the same edges it says the same.
pub open spec fn answers_by_puzzle<F: Fn(&PowPuzzle) -> bool>(cycle_check: F) -> bool {
    forall|x: &PowPuzzle, y: &PowPuzzle, r: bool, s: bool|
        #![trigger call_ensures(cycle_check, (x,), r), call_ensures(cycle_check, (y,), s)]
        x.data@ == y.data@ && x.proof@ == y.proof@ && call_ensures(cycle_check, (x,), r) && call_ensures(
            cycle_check,
            (y,),
            s,
        ) ==> r == s
}

/// The same two texts always get the same result from `verify_pow`, the
/// same error or the same answer: it reads nothing but its arguments, so
/// where the cycle check answers by the puzzle alone, no request is found
/// to pass at one call and to fail at another.
pub proof fn lemma_same_request_same_result<F: Fn(&PowPuzzle) -> bool>(
    cycle_check: F,
    data_base64: Seq<char>,
    pow_proof_base64: Seq<char>,
    first: Result<bool, PowVerifErr>,
    second: Result<bool, PowVerifErr>,
)
    requires
        answers_by_puzzle(cycle_check),
        pow_verified(cycle_check, data_base64, pow_proof_base64, first),
        pow_verified(cycle_check, data_base64, pow_proof_base64, second),
    ensures
        first == second,
{
    let read = pow_puzzle_of(base64_decoded(data_base64), base64_decoded(pow_proof_base64));
    if read is Ok {
        let (d, p) = read->Ok_0;
        if distinct_edges_in(p, EDGES_PER_BYTE * d.len()) {
            let x = choose|x: &PowPuzzle|
                x.data@ == d && x.proof@ == p && #[trigger] call_ensures(cycle_check, (x,), first->Ok_0);
            let y = choose|y: &PowPuzzle|
                y.data@ == d && y.proof@ == p && #[trigger] call_ensures(cycle_check, (y,), second->Ok_0);
            assert(call_ensures(cycle_check, (x,), first->Ok_0) && call_ensures(cycle_check, (y,), second->Ok_0));
        }
    }
}

/// The base64 text that carries `proof` in a request.
pub fn pow_proof_b64(proof: &Vec<u32>) -> (text: String)
    requires
        encodable(4 * proof@.len()),
    ensures
        text@ == base64_text(be_packed(proof@)),
        base64_decoded(text@) is Ok,
        base64_decoded(text@)->Ok_0.len() % 4 == 0,
        be_words(base64_decoded(text@)->Ok_0) == proof@,
{
    let pow_proof_bytes = vec32tovec8(proof);
    proof {
        lemma_packed_words_read_back(proof@);
    }
    encode(pow_proof_bytes.as_slice())
}

/// The text of a proof that a search found: the base64 of its packed words
/// where it names as many edges as the cycle is long, and none otherwise.
pub open spec fn proof_text_of(found: Option<Vec<u32>>) -> Option<Seq<char>> {
    match found {
        Some(proof) => if proof@.len() == CYCLE_LENGTH {
            Some(base64_text(be_packed(proof@)))
        } else {
            None
        },
        None => None,
    }
}

/// Searches a proof of work for `data_bytes` and writes it as a request
/// carries it. `solve` searches the graph of the payload for a cycle; it is
/// asked once, with the payload and its puzzle parameters. `None` where it
/// finds no cycle, and where the payload is too long for its edge space to
/// be counted.
pub fn solve_pow_proof_b64<F: Fn(&[u8], CuckooParams) -> Option<Vec<u32>>>(data_bytes: &[u8], solve: F) -> (res:
    Option<String>)
    requires
        forall|data: &[u8], params: CuckooParams| call_requires(solve, (data, params)),
    ensures
        EDGES_PER_BYTE * data_bytes@.len() > usize::MAX ==> res is None,
        EDGES_PER_BYTE * data_bytes@.len() <= usize::MAX ==> exists|found: Option<Vec<u32>>|
            {
                &&& #[trigger] call_ensures(solve, (data_bytes, params_for(data_bytes@.len())), found)
                &&& match proof_text_of(found) {
                    Some(text) => res is Some && res->Some_0@ == text,
                    None => res is None,
                }
            },
{
    if data_bytes.len() > usize::MAX / EDGES_PER_BYTE {
        return None;
    }
    let found = solve(data_bytes, cuckoo_params(data_bytes.len()));
    match &found {
        Some(proof) => {
            if proof.len() == CYCLE_LENGTH {
                Some(pow_proof_b64(proof))
            } else {
                None
            }
        },
        None => None,
    }
}

} // verus!
