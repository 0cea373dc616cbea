use vstd::prelude::*;

verus! {

/// A modification time, as whole seconds and the nanoseconds past them since the epoch.
#[derive(Clone, Copy, Debug, PartialEq, Eq, Structural)]
pub struct Timestamp {
    pub secs: u64,
    pub nanos: u32,
}

/// What one stat call tells about a file: its identity (an inode number, or 0),
/// its length and, when known and not before the epoch, its modification time.
#[derive(Clone, Copy, Debug, PartialEq, Eq, Structural)]
pub struct FileMetadata {
    pub identity: u64,
    pub size: u64,
    pub modified: Option<Timestamp>,
}

/// An entity tag: its opaque text (without quotes) and whether it is weak.
#[derive(Clone, Debug)]
pub struct EntityTag {
    pub weak: bool,
    pub tag: String,
}

pub open spec fn hex_digits() -> Seq<char> {
    seq!['0', '1', '2', '3', '4', '5', '6', '7', '8', '9', 'a', 'b', 'c', 'd', 'e', 'f']
}

/// Lower-case hexadecimal digits of `n`, without leading zeros.
pub open spec fn hex_of(n: nat) -> Seq<char>
    decreases n,
{
    if n < 16 {
        seq![hex_digits()[n as int]]
    } else {
        hex_of(n / 16).push(hex_digits()[(n % 16) as int])
    }
}

/// The opaque text of the validator: the four numbers in hexadecimal, separated by colons.
pub open spec fn etag_text(identity: nat, size: nat, secs: nat, nanos: nat) -> Seq<char> {
    hex_of(identity) + seq![':'] + hex_of(size) + seq![':'] + hex_of(secs) + seq![':']
        + hex_of(nanos)
}

/// The header value of an entity tag: quoted, with `W/` before a weak one.
pub open spec fn etag_header(weak: bool, tag: Seq<char>) -> Seq<char> {
    (if weak { seq!['W', '/'] } else { Seq::empty() }) + seq!['"'] + tag + seq!['"']
}

fn hex_digit(d: u64) -> (r: &'static str)
    requires
        d < 16,
    ensures
        r@ == seq![hex_digits()[d as int]],
{
    proof {
        reveal_strlit("0");
        reveal_strlit("1");
        reveal_strlit("2");
        reveal_strlit("3");
        reveal_strlit("4");
        reveal_strlit("5");
        reveal_strlit("6");
        reveal_strlit("7");
        reveal_strlit("8");
        reveal_strlit("9");
        reveal_strlit("a");
        reveal_strlit("b");
        reveal_strlit("c");
        reveal_strlit("d");
        reveal_strlit("e");
        reveal_strlit("f");
    }
    match d {
        0 => "0",
        1 => "1",
        2 => "2",
        3 => "3",
        4 => "4",
        5 => "5",
        6 => "6",
        7 => "7",
        8 => "8",
        9 => "9",
        10 => "a",
        11 => "b",
        12 => "c",
        13 => "d",
        14 => "e",
        _ => "f",
    }
}

/// Formats `n` in lower-case hexadecimal.
pub fn to_hex(n: u64) -> (r: String)
    ensures
        r@ == hex_of(n as nat),
    decreases n,
{
    if n < 16 {
        String::from_str(hex_digit(n))
    } else {
        let mut s = to_hex(n / 16);
        s.append(hex_digit(n % 16));
        s
    }
}

/// The strong validator of a file with the given identity, length and modification time.
pub fn etag(ino: u64, modified: &Timestamp, len: u64) -> (r: EntityTag)
    ensures
        !r.weak,
        r.tag@ == etag_text(ino as nat, len as nat, modified.secs as nat, modified.nanos as nat),
{
    proof {
        reveal_strlit(":");
    }
    let mut s = to_hex(ino);
    s.append(":");
    s = s.concat(to_hex(len).as_str());
    s.append(":");
    s = s.concat(to_hex(modified.secs).as_str());
    s.append(":");
    s = s.concat(to_hex(modified.nanos as u64).as_str());
    EntityTag { weak: false, tag: s }
}

/// The validator of a file, where its modification time is known.
pub fn generate(metadata: &FileMetadata) -> (r: Option<EntityTag>)
    ensures
        r.is_some() == metadata.modified.is_some(),
        r.is_some() ==> !r.unwrap().weak && r.unwrap().tag@ == etag_text(
            metadata.identity as nat,
            metadata.size as nat,
            metadata.modified.unwrap().secs as nat,
            metadata.modified.unwrap().nanos as nat,
        ),
{
    match &metadata.modified {
        Some(t) => Some(etag(metadata.identity, t, metadata.size)),
        None => None,
    }
}

impl EntityTag {
    /// The text of this tag as it stands in an `ETag` header.
    pub fn header_value(&self) -> (r: String)
        ensures
            r@ == etag_header(self.weak, self.tag@),
    {
        proof {
            reveal_strlit("W/\"");
            reveal_strlit("\"");
        }
        let mut s = if self.weak {
            String::from_str("W/\"")
        } else {
            String::from_str("\"")
        };
        s.append(self.tag.as_str());
        s.append("\"");
        proof {
            if self.weak {
                assert(etag_header(self.weak, self.tag@) =~= seq!['W', '/', '"'] + self.tag@
                    + seq!['"']);
            } else {
                assert(etag_header(self.weak, self.tag@) =~= seq!['"'] + self.tag@ + seq!['"']);
            }
        }
        s
    }
}

proof fn lemma_hex_shape(n: nat)
    ensures
        hex_of(n).len() >= 1,
        n >= 16 ==> hex_of(n).len() >= 2,
        no_colon(hex_of(n)),
    decreases n,
{
    if n >= 16 {
        lemma_hex_shape(n / 16);
        assert forall|i: int| 0 <= i < hex_of(n).len() implies hex_of(n)[i] != ':' by {
            if i < hex_of(n / 16).len() {
                assert(hex_of(n)[i] == hex_of(n / 16)[i]);
            }
        }
    }
}

proof fn lemma_digit_injective(a: nat, b: nat)
    requires
        a < 16,
        b < 16,
        hex_digits()[a as int] == hex_digits()[b as int],
    ensures
        a == b,
{
    let d = hex_digits();
    assert(d[0] == '0' && d[1] == '1' && d[2] == '2' && d[3] == '3' && d[4] == '4' && d[5] == '5'
        && d[6] == '6' && d[7] == '7' && d[8] == '8' && d[9] == '9' && d[10] == 'a' && d[11] == 'b'
        && d[12] == 'c' && d[13] == 'd' && d[14] == 'e' && d[15] == 'f');
}

proof fn lemma_hex_injective(n: nat, m: nat)
    requires
        hex_of(n) == hex_of(m),
    ensures
        n == m,
    decreases n,
{
    lemma_hex_shape(n);
    lemma_hex_shape(m);
    if n >= 16 && m >= 16 {
        assert(hex_of(n / 16) == hex_of(n).drop_last());
        assert(hex_of(m / 16) == hex_of(m).drop_last());
        lemma_hex_injective(n / 16, m / 16);
        assert(hex_of(n).last() == hex_of(m).last());
        assert(hex_of(n).last() == hex_digits()[(n % 16) as int]);
        assert(hex_of(m).last() == hex_digits()[(m % 16) as int]);
        lemma_digit_injective(n % 16, m % 16);
    } else {
        assert(hex_of(n)[0] == hex_of(m)[0]);
        assert(hex_of(n)[0] == hex_digits()[n as int]);
        assert(hex_of(m)[0] == hex_digits()[m as int]);
        lemma_digit_injective(n, m);
    }
}

proof fn lemma_split_at_colon(x1: Seq<char>, y1: Seq<char>, x2: Seq<char>, y2: Seq<char>)
    requires
        no_colon(x1),
        no_colon(x2),
        x1 + seq![':'] + y1 == x2 + seq![':'] + y2,
    ensures
        x1 == x2,
        y1 == y2,
{
    let s = x1 + seq![':'] + y1;
    let t = x2 + seq![':'] + y2;
    if x1.len() < x2.len() {
        assert(s[x1.len() as int] == ':');
        assert(t[x1.len() as int] == x2[x1.len() as int]);
    } else if x2.len() < x1.len() {
        assert(t[x2.len() as int] == ':');
        assert(s[x2.len() as int] == x1[x2.len() as int]);
    }
    assert(x1 =~= s.subrange(0, x1.len() as int));
    assert(x2 =~= t.subrange(0, x2.len() as int));
    assert(y1 =~= s.subrange(x1.len() as int + 1, s.len() as int));
    assert(y2 =~= t.subrange(x2.len() as int + 1, t.len() as int));
}

/// The validator text is a function of the metadata: equal identity, length and
/// modification time always give the same validator.
pub proof fn etag_text_deterministic(m1: FileMetadata, m2: FileMetadata)
    requires
        m1 == m2,
        m1.modified.is_some(),
    ensures
        etag_text(
            m1.identity as nat,
            m1.size as nat,
            m1.modified.unwrap().secs as nat,
            m1.modified.unwrap().nanos as nat,
        ) == etag_text(
            m2.identity as nat,
            m2.size as nat,
            m2.modified.unwrap().secs as nat,
            m2.modified.unwrap().nanos as nat,
        ),
{
}

pub open spec fn no_colon(s: Seq<char>) -> bool {
    forall|i: int| 0 <= i < s.len() ==> s[i] != ':'
}

proof fn lemma_split_fields(
    a1: Seq<char>,
    b1: Seq<char>,
    c1: Seq<char>,
    d1: Seq<char>,
    a2: Seq<char>,
    b2: Seq<char>,
    c2: Seq<char>,
    d2: Seq<char>,
)
    requires
        no_colon(a1) && no_colon(b1) && no_colon(c1),
        no_colon(a2) && no_colon(b2) && no_colon(c2),
        a1 + seq![':'] + b1 + seq![':'] + c1 + seq![':'] + d1 == a2 + seq![':'] + b2 + seq![':']
            + c2 + seq![':'] + d2,
    ensures
        a1 == a2 && b1 == b2 && c1 == c2 && d1 == d2,
{
    let c = seq![':'];
    let ra = b1 + c + c1 + c + d1;
    let rb = b2 + c + c2 + c + d2;
    assert(a1 + c + b1 + c + c1 + c + d1 =~= a1 + c + ra);
    assert(a2 + c + b2 + c + c2 + c + d2 =~= a2 + c + rb);
    lemma_split_at_colon(a1, ra, a2, rb);
    let qa = c1 + c + d1;
    let qb = c2 + c + d2;
    assert(ra =~= b1 + c + qa);
    assert(rb =~= b2 + c + qb);
    lemma_split_at_colon(b1, qa, b2, qb);
    lemma_split_at_colon(c1, d1, c2, d2);
}

/// Two different (identity, length, seconds, nanoseconds) tuples never share a
/// validator: changing any one of them, down to the nanosecond, changes it.
pub proof fn etag_text_sensitive(
    identity1: nat,
    size1: nat,
    secs1: nat,
    nanos1: nat,
    identity2: nat,
    size2: nat,
    secs2: nat,
    nanos2: nat,
)
    requires
        identity1 != identity2 || size1 != size2 || secs1 != secs2 || nanos1 != nanos2,
    ensures
        etag_text(identity1, size1, secs1, nanos1) != etag_text(
            identity2,
            size2,
            secs2,
            nanos2,
        ),
{
    if etag_text(identity1, size1, secs1, nanos1) == etag_text(identity2, size2, secs2, nanos2) {
        lemma_hex_shape(identity1);
        lemma_hex_shape(identity2);
        lemma_hex_shape(size1);
        lemma_hex_shape(size2);
        lemma_hex_shape(secs1);
        lemma_hex_shape(secs2);
        lemma_split_fields(
            hex_of(identity1),
            hex_of(size1),
            hex_of(secs1),
            hex_of(nanos1),
            hex_of(identity2),
            hex_of(size2),
            hex_of(secs2),
            hex_of(nanos2),
        );
        lemma_hex_injective(identity1, identity2);
        lemma_hex_injective(size1, size2);
        lemma_hex_injective(secs1, secs2);
        lemma_hex_injective(nanos1, nanos2);
    }
}

} // verus!
