//! Plain value types shared by the ledgers: payment hashes, preimages,
//! node identities and contract identifiers, with their textual forms.

use vstd::prelude::*;
use vstd::std_specs::cmp::PartialEqSpecImpl;

verus! {

/// The sixteen lower-case hexadecimal digits, in order of value.
pub open spec fn hex_digits() -> Seq<char> {
    seq!['0', '1', '2', '3', '4', '5', '6', '7', '8', '9', 'a', 'b', 'c', 'd', 'e', 'f']
}

/// Lower-case hexadecimal text of a byte string: two digits per byte,
/// the high nibble first.
pub open spec fn hex_encode(bytes: Seq<u8>) -> Seq<char> {
    Seq::new(
        2 * bytes.len(),
        |i: int|
            if i % 2 == 0 {
                hex_digits()[(bytes[i / 2] / 16) as int]
            } else {
                hex_digits()[(bytes[i / 2] % 16) as int]
            },
    )
}

/// The hexadecimal text of a byte string determines the byte string.
pub proof fn lemma_hex_encode_injective(a: Seq<u8>, b: Seq<u8>)
    requires
        hex_encode(a) == hex_encode(b),
    ensures
        a == b,
{
    assert(hex_encode(a).len() == 2 * a.len());
    assert(hex_encode(b).len() == 2 * b.len());
    assert(a.len() == b.len());
    assert forall|k: int| 0 <= k < a.len() implies a[k] == b[k] by {
        let hi_a = hex_encode(a)[2 * k];
        let lo_a = hex_encode(a)[2 * k + 1];
        assert(hi_a == hex_encode(b)[2 * k]);
        assert(lo_a == hex_encode(b)[2 * k + 1]);
        assert(hi_a == hex_digits()[(a[k] / 16) as int]);
        assert(lo_a == hex_digits()[(a[k] % 16) as int]);
        assert(hex_encode(b)[2 * k] == hex_digits()[(b[k] / 16) as int]);
        assert(hex_encode(b)[2 * k + 1] == hex_digits()[(b[k] % 16) as int]);
        lemma_hex_digit_injective(a[k] / 16, b[k] / 16);
        lemma_hex_digit_injective(a[k] % 16, b[k] % 16);
    }
    assert(a =~= b);
}

/// Two nibbles with the same digit are the same nibble.
pub proof fn lemma_hex_digit_injective(x: u8, y: u8)
    requires
        x < 16,
        y < 16,
        hex_digits()[x as int] == hex_digits()[y as int],
    ensures
        x == y,
{
    let d = hex_digits();
    assert(d[0] == '0' && d[1] == '1' && d[2] == '2' && d[3] == '3');
    assert(d[4] == '4' && d[5] == '5' && d[6] == '6' && d[7] == '7');
    assert(d[8] == '8' && d[9] == '9' && d[10] == 'a' && d[11] == 'b');
    assert(d[12] == 'c' && d[13] == 'd' && d[14] == 'e' && d[15] == 'f');
}

/// The one-character text of a nibble.
fn hex_digit(n: u8) -> (res: &'static str)
    requires
        n < 16,
    ensures
        res@ == seq![hex_digits()[n as int]],
{
    proof {
        reveal_strlit("0");
        reveal_strlit("1");
        reveal_strlit("2");
        reveal_strlit("3");
        reveal_strlit("4");
        reveal_strlit("5");
        reveal_strlit("6");
        reveal_strlit("7");
        reveal_strlit("8");
        reveal_strlit("9");
        reveal_strlit("a");
        reveal_strlit("b");
        reveal_strlit("c");
        reveal_strlit("d");
        reveal_strlit("e");
        reveal_strlit("f");
    }
    let res = if n == 0 {
        "0"
    } else if n == 1 {
        "1"
    } else if n == 2 {
        "2"
    } else if n == 3 {
        "3"
    } else if n == 4 {
        "4"
    } else if n == 5 {
        "5"
    } else if n == 6 {
        "6"
    } else if n == 7 {
        "7"
    } else if n == 8 {
        "8"
    } else if n == 9 {
        "9"
    } else if n == 10 {
        "a"
    } else if n == 11 {
        "b"
    } else if n == 12 {
        "c"
    } else if n == 13 {
        "d"
    } else if n == 14 {
        "e"
    } else {
        "f"
    };
    assert(res@ =~= seq![hex_digits()[n as int]]);
    res
}

/// Lower-case hexadecimal text of `bytes`.
pub fn to_hex(bytes: &[u8]) -> (res: String)
    ensures
        res@ == hex_encode(bytes@),
{
    let mut out = String::new();
    let mut i: usize = 0;
    while i < bytes.len()
        invariant
            i <= bytes@.len(),
            out@ == hex_encode(bytes@.subrange(0, i as int)),
        decreases bytes@.len() - i,
    {
        let b = bytes[i];
        let ghost before = out@;
        out.append(hex_digit(b / 16));
        out.append(hex_digit(b % 16));
        proof {
            let prev = bytes@.subrange(0, i as int);
            let next = bytes@.subrange(0, i as int + 1);
            assert(out@ == before + seq![hex_digits()[(b / 16) as int]] + seq![
                hex_digits()[(b % 16) as int],
            ]);
            assert(out@.len() == hex_encode(next).len());
            assert forall|k: int| 0 <= k < out@.len() implies out@[k] == hex_encode(next)[k] by {
                if k < 2 * i {
                    assert(out@[k] == before[k]);
                    assert(prev[k / 2] == next[k / 2]);
                } else {
                    assert(next[k / 2] == b);
                }
            }
            assert(out@ =~= hex_encode(next));
        }
        i += 1;
    }
    assert(bytes@.subrange(0, i as int) =~= bytes@);
    out
}

/// Whether two byte strings hold the same bytes.
pub fn bytes_eq(a: &[u8], b: &[u8]) -> (res: bool)
    ensures
        res == (a@ == b@),
{
    if a.len() != b.len() {
        return false;
    }
    let mut i: usize = 0;
    while i < a.len()
        invariant
            i <= a@.len(),
            a@.len() == b@.len(),
            forall|j: int| 0 <= j < i ==> a@[j] == b@[j],
        decreases a@.len() - i,
    {
        if a[i] != b[i] {
            return false;
        }
        i += 1;
    }
    assert(a@ =~= b@);
    true
}

/// The hash that locks a payment: the digest of its preimage.
#[derive(Clone, Copy, Debug)]
pub struct PaymentHash(pub [u8; 32]);

impl View for PaymentHash {
    type V = Seq<u8>;

    open spec fn view(&self) -> Seq<u8> {
        self.0@
    }
}

impl PartialEq for PaymentHash {
    fn eq(&self, other: &PaymentHash) -> (res: bool) {
        bytes_eq(self.0.as_slice(), other.0.as_slice())
    }
}

impl PartialEqSpecImpl for PaymentHash {
    open spec fn obeys_eq_spec() -> bool {
        true
    }

    open spec fn eq_spec(&self, other: &PaymentHash) -> bool {
        self@ == other@
    }
}

impl PaymentHash {
    /// Lower-case hexadecimal text of the hash.
    pub fn to_hex(&self) -> (res: String)
        ensures
            res@ == hex_encode(self@),
    {
        to_hex(self.0.as_slice())
    }
}

/// The secret whose digest is a payment hash.
#[derive(Clone, Copy, Debug)]
pub struct PaymentPreimage(pub [u8; 32]);

impl View for PaymentPreimage {
    type V = Seq<u8>;

    open spec fn view(&self) -> Seq<u8> {
        self.0@
    }
}

impl PartialEq for PaymentPreimage {
    fn eq(&self, other: &PaymentPreimage) -> (res: bool) {
        bytes_eq(self.0.as_slice(), other.0.as_slice())
    }
}

impl PartialEqSpecImpl for PaymentPreimage {
    open spec fn obeys_eq_spec() -> bool {
        true
    }

    open spec fn eq_spec(&self, other: &PaymentPreimage) -> bool {
        self@ == other@
    }
}

/// A node identity: the compressed encoding of a curve point, 33 bytes.
#[derive(Clone, Copy, Debug)]
pub struct PublicKey(pub [u8; 33]);

impl View for PublicKey {
    type V = Seq<u8>;

    open spec fn view(&self) -> Seq<u8> {
        self.0@
    }
}

impl PartialEq for PublicKey {
    fn eq(&self, other: &PublicKey) -> (res: bool) {
        bytes_eq(self.0.as_slice(), other.0.as_slice())
    }
}

impl PartialEqSpecImpl for PublicKey {
    open spec fn obeys_eq_spec() -> bool {
        true
    }

    open spec fn eq_spec(&self, other: &PublicKey) -> bool {
        self@ == other@
    }
}

impl PublicKey {
    /// The identity as text: lower-case hexadecimal of the 33 bytes.
    pub open spec fn spec_text(&self) -> Seq<char> {
        hex_encode(self@)
    }

    /// The identity as text, the form under which ownership rows are kept.
    pub fn to_hex(&self) -> (res: String)
        ensures
            res@ == self.spec_text(),
    {
        to_hex(self.0.as_slice())
    }
}

/// Two identities with the same text are the same identity.
pub proof fn lemma_identity_text_injective(a: PublicKey, b: PublicKey)
    requires
        a.spec_text() == b.spec_text(),
    ensures
        a@ == b@,
{
    lemma_hex_encode_injective(a@, b@);
}

/// The identifier of a token contract, in its textual form.
#[derive(Clone, Debug)]
pub struct ContractId(pub String);

impl View for ContractId {
    type V = Seq<char>;

    open spec fn view(&self) -> Seq<char> {
        self.0@
    }
}

impl PartialEq for ContractId {
    fn eq(&self, other: &ContractId) -> (res: bool) {
        self.0 == other.0
    }
}

impl PartialEqSpecImpl for ContractId {
    open spec fn obeys_eq_spec() -> bool {
        true
    }

    open spec fn eq_spec(&self, other: &ContractId) -> bool {
        self@ == other@
    }
}

impl ContractId {
    /// A contract identifier from its text.
    pub fn new(text: &str) -> (res: ContractId)
        ensures
            res@ == text@,
    {
        ContractId(String::from_str(text))
    }

    /// A copy that holds the same text.
    pub fn duplicate(&self) -> (res: ContractId)
        ensures
            res@ == self@,
    {
        ContractId(self.0.clone())
    }
}

} // verus!
