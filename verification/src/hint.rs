//! The typed vocabulary of prefetch requests: the generic [`Hint`] pair, the
//! [`HintTag`] contract any hint-type enumeration must meet, and the closed
//! [`HintType`] enumeration with its fixed tag table.
//!
//! The wire form of a hint is exactly two space-separated tokens: a tag from
//! the fixed table and an even-length hex token (possibly empty). Parsing is
//! an exact match — no trimming, no case folding of tags, no extra tokens.

use vstd::prelude::*;

use crate::codec::{
    bytes_of_hex, hex_decode, hex_encode, hex_of, is_hex_str, is_hex_token, lemma_bytes_of_hex_of,
    lemma_hex_of_wf,
};
use crate::errors::HintParsingError;

verus! {

use vstd::string::StrSliceExecFns;
use vstd::string::StringExecFns;
use vstd::utf8::is_ascii_chars;

/// The canonical wire form of a hint: the tag, one space, the hex token.
pub open spec fn wire_of(tag: Seq<char>, d: Seq<u8>) -> Seq<char> {
    tag + seq![' '] + hex_of(d)
}

/// The string splits into exactly two tokens, around a single space at `i`.
pub open spec fn single_space_at(s: Seq<char>, i: int) -> bool {
    &&& 0 <= i < s.len()
    &&& s[i] == ' '
    &&& forall|j: int| 0 <= j < s.len() && j != i ==> s[j] != ' '
}

/// The parse relation of the hint grammar: `s` consists of exactly two
/// tokens, the first is the tag of `t`, the second is a well-formed hex
/// token denoting `d`.
pub open spec fn parses_to<HT: HintTag>(s: Seq<char>, t: HT, d: Seq<u8>) -> bool {
    exists|i: int|
        {
            &&& #[trigger] single_space_at(s, i)
            &&& t.tag_spec() == s.take(i)
            &&& is_hex_str(s.skip(i + 1))
            &&& d == bytes_of_hex(s.skip(i + 1))
        }
}

/// The contract a hint-type vocabulary must meet so that the wire framing
/// and channel logic can be reused across proof programs: a total, bijective
/// mapping between variants and fixed tags.
pub trait HintTag: Sized {
    /// The unique, stable tag of this hint type.
    spec fn tag_spec(&self) -> Seq<char>;

    /// Tags are nonempty, ASCII, and never contain the token separator.
    proof fn lemma_tag_wf(&self)
        ensures
            self.tag_spec().len() > 0,
            is_ascii_chars(self.tag_spec()),
            forall|j: int|
                0 <= j < self.tag_spec().len() ==> #[trigger] self.tag_spec()[j] != ' ',
    ;

    /// No two distinct hint types share a tag.
    proof fn lemma_tag_injective(&self, other: &Self)
        ensures
            self.tag_spec() == other.tag_spec() ==> self == other,
    ;

    /// Returns the tag as a string.
    fn tag(&self) -> (r: String)
        ensures
            r@ == self.tag_spec(),
    ;

    /// Parses a tag by exact match against the fixed table; an unknown tag
    /// is a parse error carrying the offending token.
    fn parse_tag(s: &str) -> (r: Result<Self, HintParsingError>)
        ensures
            match r {
                Ok(t) => t.tag_spec() == s@,
                Err(_) => forall|t: Self| #[trigger] t.tag_spec() != s@,
            },
    ;
}

/// A typed prefetch request: a hint type and the bytes that go with it.
/// Ephemeral — constructed, encoded, transmitted, and discarded.
#[derive(Debug, Clone, PartialEq, Eq, Hash)]
pub struct Hint<HT> {
    /// The type of hint.
    pub hint_type: HT,
    /// The data associated with the hint.
    pub hint_data: Vec<u8>,
}

impl<HT> Hint<HT> {
    /// Splits the hint into its components.
    pub fn split(self) -> (r: (HT, Vec<u8>))
        ensures
            r.0 == self.hint_type,
            r.1 == self.hint_data,
    {
        (self.hint_type, self.hint_data)
    }
}

impl<HT: HintTag> Hint<HT> {
    /// Encodes the hint in its canonical wire form `"<tag> <hex>"`, with the
    /// data in lower-case hex.
    pub fn to_wire(&self) -> (r: String)
        ensures
            r@ == wire_of(self.hint_type.tag_spec(), self.hint_data@),
            is_ascii_chars(r@),
    {
        let mut out = self.hint_type.tag();
        out.append(" ");
        let hex = hex_encode(self.hint_data.as_slice());
        out.append(hex.as_str());
        proof {
            reveal_strlit(" ");
            self.hint_type.lemma_tag_wf();
            lemma_hex_of_wf(self.hint_data@);
            let tag = self.hint_type.tag_spec();
            assert(" "@ =~= seq![' ']);
            assert(out@ =~= wire_of(tag, self.hint_data@));
            assert forall|i: int| 0 <= i < out@.len() implies '\0' <= #[trigger] out@[i]
                <= '\u{7f}' by {
                if i < tag.len() {
                    assert(out@[i] == tag[i]);
                } else if i == tag.len() {
                    assert(out@[i] == ' ');
                } else {
                    assert(out@[i] == hex_of(self.hint_data@)[i - tag.len() - 1]);
                }
            }
        }
        out
    }

    /// Parses the two-token wire form. Fails — with an error naming the
    /// offending input, and without panicking — on any other token count, an
    /// unknown tag, or a second token that is not even-length hex.
    pub fn from_str(s: &str) -> (r: Result<Hint<HT>, HintParsingError>)
        ensures
            match r {
                Ok(h) => parses_to(s@, h.hint_type, h.hint_data@),
                Err(_) => forall|t: HT, d: Seq<u8>| !#[trigger] parses_to(s@, t, d),
            },
    {
        let len = s.unicode_len();
        let mut i: usize = 0;
        let mut spaces: usize = 0;
        let mut first_space: usize = 0;
        while i < len
            invariant
                i <= len,
                len == s@.len(),
                spaces <= 2,
                spaces == 0 ==> forall|j: int| 0 <= j < i ==> s@[j] != ' ',
                spaces >= 1 ==> first_space < i && s@[first_space as int] == ' ',
                spaces == 1 ==> forall|j: int|
                    0 <= j < i && j != first_space ==> s@[j] != ' ',
                spaces == 2 ==> exists|j: int|
                    0 <= j < i && j != first_space && s@[j] == ' ',
            decreases len - i,
        {
            let c = s.get_char(i);
            if c == ' ' {
                if spaces == 0 {
                    first_space = i;
                    spaces = 1;
                } else {
                    spaces = 2;
                }
            }
            i = i + 1;
        }
        if spaces != 1 {
            proof {
                assert forall|t: HT, d: Seq<u8>| !#[trigger] parses_to(s@, t, d) by {
                    if parses_to(s@, t, d) {
                        let w = choose|w: int|
                            {
                                &&& #[trigger] single_space_at(s@, w)
                                &&& t.tag_spec() == s@.take(w)
                                &&& is_hex_str(s@.skip(w + 1))
                                &&& d == bytes_of_hex(s@.skip(w + 1))
                            };
                        if spaces == 0 {
                            assert(s@[w] != ' ');
                        } else {
                            let j = choose|j: int|
                                0 <= j < len && j != first_space && s@[j] == ' ';
                            assert(w != first_space || w != j);
                        }
                    }
                }
            }
            return Err(HintParsingError(String::from_str(s)));
        }
        let tag_tok = s.substring_char(0, first_space);
        let hex_tok = s.substring_char(first_space + 1, len);
        proof {
            assert(tag_tok@ =~= s@.take(first_space as int));
            assert(hex_tok@ =~= s@.skip(first_space + 1));
        }
        let hint_type = match HT::parse_tag(tag_tok) {
            Ok(t) => t,
            Err(e) => {
                proof {
                    assert forall|t: HT, d: Seq<u8>| !#[trigger] parses_to(s@, t, d) by {
                        if parses_to(s@, t, d) {
                            let w = choose|w: int|
                                {
                                    &&& #[trigger] single_space_at(s@, w)
                                    &&& t.tag_spec() == s@.take(w)
                                    &&& is_hex_str(s@.skip(w + 1))
                                    &&& d == bytes_of_hex(s@.skip(w + 1))
                                };
                            assert(w == first_space);
                            assert(t.tag_spec() != s@.take(first_space as int));
                        }
                    }
                }
                return Err(e);
            },
        };
        if !is_hex_token(hex_tok) {
            proof {
                assert forall|t: HT, d: Seq<u8>| !#[trigger] parses_to(s@, t, d) by {
                    if parses_to(s@, t, d) {
                        let w = choose|w: int|
                            {
                                &&& #[trigger] single_space_at(s@, w)
                                &&& t.tag_spec() == s@.take(w)
                                &&& is_hex_str(s@.skip(w + 1))
                                &&& d == bytes_of_hex(s@.skip(w + 1))
                            };
                        assert(w == first_space);
                    }
                }
            }
            return Err(HintParsingError(String::from_str(s)));
        }
        let hint_data = hex_decode(hex_tok);
        proof {
            assert(single_space_at(s@, first_space as int));
        }
        Ok(Hint { hint_type, hint_data })
    }
}

/// Round trip, existence half: the canonical wire form of any hint parses,
/// and parses back to exactly that hint.
pub proof fn lemma_wire_parses<HT: HintTag>(t: HT, d: Seq<u8>)
    ensures
        parses_to(wire_of(t.tag_spec(), d), t, d),
{
    let s = wire_of(t.tag_spec(), d);
    let i = t.tag_spec().len() as int;
    t.lemma_tag_wf();
    lemma_hex_of_wf(d);
    lemma_bytes_of_hex_of(d);
    assert(s[i] == ' ');
    assert forall|j: int| 0 <= j < s.len() && j != i implies s[j] != ' ' by {
        if j < i {
            assert(s[j] == t.tag_spec()[j]);
        } else {
            assert(s[j] == hex_of(d)[j - i - 1]);
        }
    }
    assert(single_space_at(s, i));
    assert(t.tag_spec() =~= s.take(i));
    assert(s.skip(i + 1) =~= hex_of(d));
}

/// Round trip, uniqueness half: a wire string parses to at most one hint —
/// so whatever `from_str` accepts is exactly what was encoded.
pub proof fn lemma_parse_unique<HT: HintTag>(s: Seq<char>, t1: HT, d1: Seq<u8>, t2: HT, d2: Seq<
    u8,
>)
    requires
        parses_to(s, t1, d1),
        parses_to(s, t2, d2),
    ensures
        t1 == t2,
        d1 == d2,
{
    let w1 = choose|w: int|
        {
            &&& #[trigger] single_space_at(s, w)
            &&& t1.tag_spec() == s.take(w)
            &&& is_hex_str(s.skip(w + 1))
            &&& d1 == bytes_of_hex(s.skip(w + 1))
        };
    let w2 = choose|w: int|
        {
            &&& #[trigger] single_space_at(s, w)
            &&& t2.tag_spec() == s.take(w)
            &&& is_hex_str(s.skip(w + 1))
            &&& d2 == bytes_of_hex(s.skip(w + 1))
        };
    assert(w1 == w2);
    t1.lemma_tag_injective(&t2);
}

/// Compares two strings character by character.
fn str_eq(a: &str, b: &str) -> (r: bool)
    ensures
        r == (a@ == b@),
{
    let la = a.unicode_len();
    let lb = b.unicode_len();
    if la != lb {
        return false;
    }
    let mut i: usize = 0;
    while i < la
        invariant
            i <= la,
            la == a@.len(),
            la == b@.len(),
            forall|j: int| 0 <= j < i ==> a@[j] == b@[j],
        decreases la - i,
    {
        if a.get_char(i) != b.get_char(i) {
            return false;
        }
        i = i + 1;
    }
    proof {
        assert(a@ =~= b@);
    }
    true
}

/// The closed enumeration of request kinds a fault-proof program can hint.
/// Each variant has a unique, stable, lower-kebab-case tag used for both
/// encoding and parsing.
#[derive(Debug, Clone, Copy, PartialEq, Eq, PartialOrd, Ord, Hash)]
pub enum HintType {
    /// The block header of a layer 1 block.
    L1BlockHeader,
    /// The transactions of a layer 1 block.
    L1Transactions,
    /// The receipts of a layer 1 block.
    L1Receipts,
    /// A blob in the layer 1 beacon chain.
    L1Blob,
    /// A precompile call on layer 1.
    L1Precompile,
    /// The block header of a layer 2 block.
    L2BlockHeader,
    /// The transactions of a layer 2 block.
    L2Transactions,
    /// The code of a contract on layer 2.
    L2Code,
    /// The preimage of the starting L2 output root.
    StartingL2Output,
    /// A state node in the L2 state trie.
    L2StateNode,
    /// The proof on the path to an account in the L2 state trie.
    L2AccountProof,
    /// The proof on the path to a storage slot in an account within the L2
    /// state trie.
    L2AccountStorageProof,
    /// Bulk storage of all the code, state and keys generated by an
    /// execution witness.
    L2PayloadWitness,
}

impl HintType {
    /// The tag of this hint type, from the fixed table.
    pub fn to_str(&self) -> (r: &'static str)
        ensures
            r@ == self.tag_spec(),
    {
        match self {
            HintType::L1BlockHeader => "l1-block-header",
            HintType::L1Transactions => "l1-transactions",
            HintType::L1Receipts => "l1-receipts",
            HintType::L1Blob => "l1-blob",
            HintType::L1Precompile => "l1-precompile",
            HintType::L2BlockHeader => "l2-block-header",
            HintType::L2Transactions => "l2-transactions",
            HintType::L2Code => "l2-code",
            HintType::StartingL2Output => "starting-l2-output",
            HintType::L2StateNode => "l2-state-node",
            HintType::L2AccountProof => "l2-account-proof",
            HintType::L2AccountStorageProof => "l2-account-storage-proof",
            HintType::L2PayloadWitness => "l2-payload-witness",
        }
    }

    /// Parses a tag by exact match against the fixed table.
    pub fn from_str(value: &str) -> (r: Result<HintType, HintParsingError>)
        ensures
            match r {
                Ok(t) => t.tag_spec() == value@,
                Err(_) => forall|t: HintType| #[trigger] t.tag_spec() != value@,
            },
    {
        <HintType as HintTag>::parse_tag(value)
    }

    /// Encodes a hint whose payload is the concatenation of the given byte
    /// slices, in argument order with no separators, as `"<tag> <hex>"`.
    #[verifier::loop_isolation(false)]
    pub fn encode_with(&self, data: &[&[u8]]) -> (r: String)
        ensures
            r@ == wire_of(self.tag_spec(), data@.map_values(|p: &[u8]| p@).flatten()),
            is_ascii_chars(r@),
    {
        let ghost parts = data@.map_values(|p: &[u8]| p@);
        let mut all: Vec<u8> = Vec::new();
        proof {
            assert(parts.take(0) =~= Seq::<Seq<u8>>::empty());
        }
        let mut idx: usize = 0;
        while idx < data.len()
            invariant
                idx <= parts.len(),
                all@ == parts.take(idx as int).flatten(),
            decreases parts.len() - idx,
        {
            let part: &[u8] = data[idx];
            let mut j: usize = 0;
            while j < part.len()
                invariant
                    j <= part@.len(),
                    all@ == parts.take(idx as int).flatten() + part@.take(j as int),
                decreases part@.len() - j,
            {
                let byte = *vstd::slice::slice_index_get(part, j);
                all.push(byte);
                proof {
                    assert(part@.take(j + 1) =~= part@.take(j as int).push(part@[j as int]));
                }
                j = j + 1;
            }
            proof {
                assert(part@.take(part@.len() as int) =~= part@);
                assert(parts.take(idx + 1) =~= parts.take(idx as int).push(parts[idx as int]));
                parts.take(idx as int).lemma_flatten_push(parts[idx as int]);
            }
            idx = idx + 1;
        }
        proof {
            assert(parts.take(parts.len() as int) =~= parts);
        }
        let hint = Hint { hint_type: *self, hint_data: all };
        hint.to_wire()
    }
}

impl HintTag for HintType {
    open spec fn tag_spec(&self) -> Seq<char> {
        match self {
            HintType::L1BlockHeader => "l1-block-header"@,
            HintType::L1Transactions => "l1-transactions"@,
            HintType::L1Receipts => "l1-receipts"@,
            HintType::L1Blob => "l1-blob"@,
            HintType::L1Precompile => "l1-precompile"@,
            HintType::L2BlockHeader => "l2-block-header"@,
            HintType::L2Transactions => "l2-transactions"@,
            HintType::L2Code => "l2-code"@,
            HintType::StartingL2Output => "starting-l2-output"@,
            HintType::L2StateNode => "l2-state-node"@,
            HintType::L2AccountProof => "l2-account-proof"@,
            HintType::L2AccountStorageProof => "l2-account-storage-proof"@,
            HintType::L2PayloadWitness => "l2-payload-witness"@,
        }
    }

    proof fn lemma_tag_wf(&self)
    {
        reveal_strlit("l1-block-header");
        reveal_strlit("l1-transactions");
        reveal_strlit("l1-receipts");
        reveal_strlit("l1-blob");
        reveal_strlit("l1-precompile");
        reveal_strlit("l2-block-header");
        reveal_strlit("l2-transactions");
        reveal_strlit("l2-code");
        reveal_strlit("starting-l2-output");
        reveal_strlit("l2-state-node");
        reveal_strlit("l2-account-proof");
        reveal_strlit("l2-account-storage-proof");
        reveal_strlit("l2-payload-witness");
    }

    #[verifier::rlimit(100)]
    proof fn lemma_tag_injective(&self, other: &Self)
    {
        reveal_strlit("l1-block-header");
        reveal_strlit("l1-transactions");
        reveal_strlit("l1-receipts");
        reveal_strlit("l1-blob");
        reveal_strlit("l1-precompile");
        reveal_strlit("l2-block-header");
        reveal_strlit("l2-transactions");
        reveal_strlit("l2-code");
        reveal_strlit("starting-l2-output");
        reveal_strlit("l2-state-node");
        reveal_strlit("l2-account-proof");
        reveal_strlit("l2-account-storage-proof");
        reveal_strlit("l2-payload-witness");
        assert("l1-block-header"@.len() == 15);
        assert("l1-transactions"@.len() == 15);
        assert("l1-receipts"@.len() == 11);
        assert("l1-blob"@.len() == 7);
        assert("l1-precompile"@.len() == 13);
        assert("l2-block-header"@.len() == 15);
        assert("l2-transactions"@.len() == 15);
        assert("l2-code"@.len() == 7);
        assert("starting-l2-output"@.len() == 18);
        assert("l2-state-node"@.len() == 13);
        assert("l2-account-proof"@.len() == 16);
        assert("l2-account-storage-proof"@.len() == 24);
        assert("l2-payload-witness"@.len() == 18);
        assert("l1-block-header"@[1] == '1' && "l1-block-header"@[3] == 'b');
        assert("l1-transactions"@[1] == '1' && "l1-transactions"@[3] == 't');
        assert("l2-block-header"@[1] == '2' && "l2-block-header"@[3] == 'b');
        assert("l2-transactions"@[1] == '2' && "l2-transactions"@[3] == 't');
        assert("l1-blob"@[1] == '1' && "l2-code"@[1] == '2');
        assert("l1-precompile"@[1] == '1' && "l2-state-node"@[1] == '2');
        assert("starting-l2-output"@[0] == 's' && "l2-payload-witness"@[0] == 'l');
    }

    fn tag(&self) -> (r: String) {
        String::from_str(self.to_str())
    }

    fn parse_tag(s: &str) -> (r: Result<Self, HintParsingError>) {
        if str_eq(s, "l1-block-header") {
            Ok(HintType::L1BlockHeader)
        } else if str_eq(s, "l1-transactions") {
            Ok(HintType::L1Transactions)
        } else if str_eq(s, "l1-receipts") {
            Ok(HintType::L1Receipts)
        } else if str_eq(s, "l1-blob") {
            Ok(HintType::L1Blob)
        } else if str_eq(s, "l1-precompile") {
            Ok(HintType::L1Precompile)
        } else if str_eq(s, "l2-block-header") {
            Ok(HintType::L2BlockHeader)
        } else if str_eq(s, "l2-transactions") {
            Ok(HintType::L2Transactions)
        } else if str_eq(s, "l2-code") {
            Ok(HintType::L2Code)
        } else if str_eq(s, "starting-l2-output") {
            Ok(HintType::StartingL2Output)
        } else if str_eq(s, "l2-state-node") {
            Ok(HintType::L2StateNode)
        } else if str_eq(s, "l2-account-proof") {
            Ok(HintType::L2AccountProof)
        } else if str_eq(s, "l2-account-storage-proof") {
            Ok(HintType::L2AccountStorageProof)
        } else if str_eq(s, "l2-payload-witness") {
            Ok(HintType::L2PayloadWitness)
        } else {
            proof {
                assert forall|t: HintType| #[trigger] t.tag_spec() != s@ by {
                    match t {
                        HintType::L1BlockHeader => assert(t.tag_spec() == "l1-block-header"@),
                        HintType::L1Transactions => assert(t.tag_spec() == "l1-transactions"@),
                        HintType::L1Receipts => assert(t.tag_spec() == "l1-receipts"@),
                        HintType::L1Blob => assert(t.tag_spec() == "l1-blob"@),
                        HintType::L1Precompile => assert(t.tag_spec() == "l1-precompile"@),
                        HintType::L2BlockHeader => assert(t.tag_spec() == "l2-block-header"@),
                        HintType::L2Transactions => assert(t.tag_spec() == "l2-transactions"@),
                        HintType::L2Code => assert(t.tag_spec() == "l2-code"@),
                        HintType::StartingL2Output => assert(t.tag_spec()
                            == "starting-l2-output"@),
                        HintType::L2StateNode => assert(t.tag_spec() == "l2-state-node"@),
                        HintType::L2AccountProof => assert(t.tag_spec() == "l2-account-proof"@),
                        HintType::L2AccountStorageProof => assert(t.tag_spec()
                            == "l2-account-storage-proof"@),
                        HintType::L2PayloadWitness => assert(t.tag_spec()
                            == "l2-payload-witness"@),
                    }
                }
            }
            Err(HintParsingError(String::from_str(s)))
        }
    }
}

} // verus!
