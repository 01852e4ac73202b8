//! The closed set of light-client types, with a strict codec between each type
//! and its wire tag and numeric code, and a lenient inference from a client
//! identifier.

use vstd::prelude::*;

verus! {

/// Type of the client, depending on the specific consensus algorithm.
#[derive(Copy, Clone, Debug, PartialEq, Eq, Structural, PartialOrd, Ord, Hash)]
pub enum ClientType {
    Tendermint,
    Eth,
    Ckb,
    Axon,
    Ckb4Ibc,
    /// Sentinel used by tests and as the fallback of inference.
    Mock,
}

/// Failure of the strict decoders: the raw input that names no client type.
#[derive(Debug)]
pub enum ClientError {
    UnknownClientType { client_type: String },
}

/// The decimal digit character of `d` (below ten).
pub open spec fn digit_char(d: nat) -> char {
    if d == 0 { '0' }
    else if d == 1 { '1' }
    else if d == 2 { '2' }
    else if d == 3 { '3' }
    else if d == 4 { '4' }
    else if d == 5 { '5' }
    else if d == 6 { '6' }
    else if d == 7 { '7' }
    else if d == 8 { '8' }
    else { '9' }
}

/// The decimal notation of `n`, without sign or leading zeros.
pub open spec fn decimal(n: nat) -> Seq<char>
    decreases n,
{
    if n < 10 {
        seq![digit_char(n)]
    } else {
        decimal(n / 10).push(digit_char(n % 10))
    }
}

/// Relies on `ToString` for `u64`, that is its `Display`: the decimal notation.
#[verifier::external_body]
fn u64_to_decimal(value: u64) -> (r: String)
    ensures
        r@ == decimal(value as nat),
{
    value.to_string()
}

/// Every client type, in declaration order.
pub open spec fn all_types() -> Seq<ClientType> {
    seq![
        ClientType::Tendermint,
        ClientType::Eth,
        ClientType::Ckb,
        ClientType::Axon,
        ClientType::Ckb4Ibc,
        ClientType::Mock,
    ]
}

/// The strict decoding of a wire tag.
pub open spec fn from_tag(s: Seq<char>) -> Option<ClientType> {
    if s == ClientType::Tendermint.tag() {
        Some(ClientType::Tendermint)
    } else if s == ClientType::Eth.tag() {
        Some(ClientType::Eth)
    } else if s == ClientType::Ckb.tag() {
        Some(ClientType::Ckb)
    } else if s == ClientType::Axon.tag() {
        Some(ClientType::Axon)
    } else if s == ClientType::Ckb4Ibc.tag() {
        Some(ClientType::Ckb4Ibc)
    } else if s == ClientType::Mock.tag() {
        Some(ClientType::Mock)
    } else {
        None
    }
}

/// The strict decoding of a numeric code.
pub open spec fn from_code(n: u64) -> Option<ClientType> {
    if n == 1 {
        Some(ClientType::Tendermint)
    } else if n == 2 {
        Some(ClientType::Eth)
    } else if n == 3 {
        Some(ClientType::Ckb)
    } else if n == 4 {
        Some(ClientType::Axon)
    } else if n == 5 {
        Some(ClientType::Ckb4Ibc)
    } else if n == 9999 {
        Some(ClientType::Mock)
    } else {
        None
    }
}

/// The lenient inference over the first `n` types of `all_types()`: the last
/// of them whose tag is a prefix of `id`, or `Mock` where none is.
pub open spec fn infer_upto(id: Seq<char>, n: nat) -> ClientType
    decreases n,
{
    if n == 0 {
        ClientType::Mock
    } else if all_types()[n - 1].tag().is_prefix_of(id) {
        all_types()[n - 1]
    } else {
        infer_upto(id, (n - 1) as nat)
    }
}

/// The client type inferred from an identifier, over all types.
pub open spec fn infer(id: Seq<char>) -> ClientType {
    infer_upto(id, all_types().len())
}

impl ClientType {
    /// The canonical wire tag.
    pub open spec fn tag(self) -> Seq<char> {
        match self {
            ClientType::Tendermint => "07-tendermint"@,
            ClientType::Eth => "07-ethereum"@,
            ClientType::Ckb => "07-ckb4eth"@,
            ClientType::Axon => "07-axon"@,
            ClientType::Ckb4Ibc => "07-ckb4ibc"@,
            ClientType::Mock => "9999-mock"@,
        }
    }

    /// The numeric code.
    pub open spec fn code(self) -> u64 {
        match self {
            ClientType::Tendermint => 1,
            ClientType::Eth => 2,
            ClientType::Ckb => 3,
            ClientType::Axon => 4,
            ClientType::Ckb4Ibc => 5,
            ClientType::Mock => 9999,
        }
    }

    /// Yields the identifier of this client type as a string
    pub fn as_str(&self) -> (r: &'static str)
        ensures
            r@ == self.tag(),
    {
        match self {
            ClientType::Tendermint => "07-tendermint",
            ClientType::Eth => "07-ethereum",
            ClientType::Ckb => "07-ckb4eth",
            ClientType::Axon => "07-axon",
            ClientType::Ckb4Ibc => "07-ckb4ibc",
            ClientType::Mock => "9999-mock",
        }
    }

    /// The numeric code of this client type.
    pub fn code_of(&self) -> (r: u64)
        ensures
            r == self.code(),
    {
        match self {
            ClientType::Tendermint => 1,
            ClientType::Eth => 2,
            ClientType::Ckb => 3,
            ClientType::Axon => 4,
            ClientType::Ckb4Ibc => 5,
            ClientType::Mock => 9999,
        }
    }
}

/// Whether `a` and `b` hold the same characters.
fn str_equal(a: &str, b: &str) -> (r: bool)
    ensures
        r == (a@ == b@),
{
    let n = a.unicode_len();
    let m = b.unicode_len();
    if n != m {
        return false;
    }
    let mut i: usize = 0;
    while i < n
        invariant
            n == a@.len(),
            m == b@.len(),
            n == m,
            i <= n,
            a@.subrange(0, i as int) == b@.subrange(0, i as int),
        decreases n - i,
    {
        if a.get_char(i) != b.get_char(i) {
            assert(a@[i as int] != b@[i as int]);
            return false;
        }
        assert(a@.subrange(0, i + 1) =~= a@.subrange(0, i as int).push(a@[i as int]));
        assert(b@.subrange(0, i + 1) =~= b@.subrange(0, i as int).push(b@[i as int]));
        i = i + 1;
    }
    assert(a@ =~= a@.subrange(0, n as int));
    assert(b@ =~= b@.subrange(0, n as int));
    true
}

/// Whether `p` is a prefix of `s`.
fn str_starts_with(s: &str, p: &str) -> (r: bool)
    ensures
        r == p@.is_prefix_of(s@),
{
    let n = s.unicode_len();
    let m = p.unicode_len();
    if m > n {
        return false;
    }
    let mut i: usize = 0;
    while i < m
        invariant
            n == s@.len(),
            m == p@.len(),
            m <= n,
            i <= m,
            p@.subrange(0, i as int) == s@.subrange(0, i as int),
        decreases m - i,
    {
        if s.get_char(i) != p.get_char(i) {
            assert(p@[i as int] != s@[i as int]);
            return false;
        }
        assert(p@.subrange(0, i + 1) =~= p@.subrange(0, i as int).push(p@[i as int]));
        assert(s@.subrange(0, i + 1) =~= s@.subrange(0, i as int).push(s@[i as int]));
        i = i + 1;
    }
    assert(p@ =~= p@.subrange(0, m as int));
    true
}

/// The types in declaration order, as a value.
fn all_types_vec() -> (r: Vec<ClientType>)
    ensures
        r@ == all_types(),
{
    let r = vec![
        ClientType::Tendermint,
        ClientType::Eth,
        ClientType::Ckb,
        ClientType::Axon,
        ClientType::Ckb4Ibc,
        ClientType::Mock,
    ];
    assert(r@ =~= all_types());
    r
}

/// Every tag is non-empty, and no two types share a tag.
pub proof fn lemma_tags_distinct()
    ensures
        forall|v: ClientType| #[trigger] v.tag().len() > 0,
        forall|v: ClientType, w: ClientType| v.tag() == w.tag() ==> v == w,
{
    reveal_strlit("07-tendermint");
    reveal_strlit("07-ethereum");
    reveal_strlit("07-ckb4eth");
    reveal_strlit("07-axon");
    reveal_strlit("07-ckb4ibc");
    reveal_strlit("9999-mock");
    assert forall|v: ClientType, w: ClientType| v.tag() == w.tag() implies v == w by {
        if v != w {
            let i = if v.tag().len() != w.tag().len() { 0 } else if v.tag()[3] != w.tag()[3] { 3 } else { 6 };
            if v.tag().len() == w.tag().len() {
                assert(v.tag()[i] != w.tag()[i] || v.tag()[7] != w.tag()[7]
                    || v.tag()[8] != w.tag()[8]);
            }
        }
    }
}

/// Decoding the tag of a type, or its numeric code, gives that type back.
pub proof fn lemma_codec_round_trip(v: ClientType)
    ensures
        from_tag(v.tag()) == Some(v),
        from_code(v.code()) == Some(v),
{
    lemma_tags_distinct();
}

/// A string is decoded strictly exactly when it is the tag of some type.
pub proof fn lemma_from_tag_total(s: Seq<char>)
    ensures
        from_tag(s) is None <==> forall|v: ClientType| s != #[trigger] v.tag(),
        from_tag(s) matches Some(v) ==> s == v.tag(),
{
}

impl ClientType {
    /// Strict decoding of a wire tag: only an exact canonical tag is accepted.
    pub fn parse(s: &str) -> (r: Result<ClientType, ClientError>)
        ensures
            r matches Ok(v) ==> from_tag(s@) == Some(v) && v.tag() == s@,
            r matches Err(ClientError::UnknownClientType { client_type }) ==> from_tag(s@) is None
                && client_type@ == s@,
            r is Err <==> forall|v: ClientType| s@ != #[trigger] v.tag(),
    {
        proof {
            lemma_from_tag_total(s@);
        }
        if str_equal(s, ClientType::Tendermint.as_str()) {
            Ok(ClientType::Tendermint)
        } else if str_equal(s, ClientType::Eth.as_str()) {
            Ok(ClientType::Eth)
        } else if str_equal(s, ClientType::Ckb.as_str()) {
            Ok(ClientType::Ckb)
        } else if str_equal(s, ClientType::Axon.as_str()) {
            Ok(ClientType::Axon)
        } else if str_equal(s, ClientType::Ckb4Ibc.as_str()) {
            Ok(ClientType::Ckb4Ibc)
        } else if str_equal(s, ClientType::Mock.as_str()) {
            Ok(ClientType::Mock)
        } else {
            Err(ClientError::UnknownClientType { client_type: String::from_str(s) })
        }
    }

    /// Strict decoding of a numeric code; the error carries the code in decimal.
    pub fn from_code(value: u64) -> (r: Result<ClientType, ClientError>)
        ensures
            r matches Ok(v) ==> from_code(value) == Some(v) && v.code() == value,
            r matches Err(ClientError::UnknownClientType { client_type }) ==> from_code(value) is None
                && client_type@ == decimal(value as nat),
            r is Err <==> from_code(value) is None,
    {
        match value {
            1 => Ok(ClientType::Tendermint),
            2 => Ok(ClientType::Eth),
            3 => Ok(ClientType::Ckb),
            4 => Ok(ClientType::Axon),
            5 => Ok(ClientType::Ckb4Ibc),
            9999 => Ok(ClientType::Mock),
            _ => Err(ClientError::UnknownClientType { client_type: u64_to_decimal(value) }),
        }
    }

    /// Lenient inference from a client identifier: the last type, in
    /// declaration order, whose tag prefixes the identifier, or `Mock` where
    /// none does. Never fails.
    pub fn from_client_id(client_id: &str) -> (r: ClientType)
        ensures
            r == infer(client_id@),
            client_id@.len() == 0 ==> r == ClientType::Mock,
    {
        let types = all_types_vec();
        let mut client_type = ClientType::Mock;
        let mut i: usize = 0;
        while i < types.len()
            invariant
                types@ == all_types(),
                i <= types@.len(),
                client_type == infer_upto(client_id@, i as nat),
            decreases types@.len() - i,
        {
            let value = types[i];
            if str_starts_with(client_id, value.as_str()) {
                client_type = value;
            }
            i = i + 1;
        }
        proof {
            if client_id@.len() == 0 {
                lemma_tags_distinct();
                lemma_infer_empty(client_id@, all_types().len());
            }
        }
        client_type
    }
}

proof fn lemma_infer_empty(id: Seq<char>, n: nat)
    requires
        id.len() == 0,
        n <= all_types().len(),
        forall|v: ClientType| #[trigger] v.tag().len() > 0,
    ensures
        infer_upto(id, n) == ClientType::Mock,
    decreases n,
{
    if n > 0 {
        let t = all_types()[n - 1].tag();
        assert(t.len() > 0);
        lemma_infer_empty(id, (n - 1) as nat);
    }
}

impl core::str::FromStr for ClientType {
    type Err = ClientError;

    fn from_str(s: &str) -> (r: Result<ClientType, ClientError>)
        ensures
            r matches Ok(v) ==> from_tag(s@) == Some(v) && v.tag() == s@,
            r matches Err(ClientError::UnknownClientType { client_type }) ==> from_tag(s@) is None
                && client_type@ == s@,
            r is Err <==> forall|v: ClientType| s@ != #[trigger] v.tag(),
    {
        ClientType::parse(s)
    }
}

} // verus!
