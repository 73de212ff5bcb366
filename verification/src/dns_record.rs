//! DNS records as the Aliyun DNS API reports them, the record-type codes,
//! and the conversions to and from Cloudflare's record shape.

use crate::text::{owned, str_eq, to_uppercase, uppercase};
use vstd::prelude::*;
use vstd::string::*;

verus! {

/// Type of a DNS record.
#[derive(Debug, Clone, Copy, PartialEq, Eq, Structural)]
pub enum Type {
    A,
    Cname,
    MX,
    AAAA,
    TXT,
    NS,
    SOA,
    PTR,
    SRV,
    ForwardUrl,
}

/// Status of a DNS record.
#[derive(Debug, Clone, Copy, PartialEq, Eq, Structural)]
pub enum Status {
    Enable,
}

/// Resolution line of a DNS record.
#[derive(Debug, Clone, Copy, PartialEq, Eq, Structural)]
pub enum Line {
    Default,
}

/// The wire code of a record type, as the Aliyun API spells it.
pub open spec fn type_code(t: Type) -> Seq<char> {
    match t {
        Type::A => "A"@,
        Type::Cname => "CNAME"@,
        Type::MX => "MX"@,
        Type::AAAA => "AAAA"@,
        Type::TXT => "TXT"@,
        Type::NS => "NS"@,
        Type::SOA => "SOA"@,
        Type::PTR => "PTR"@,
        Type::SRV => "SRV"@,
        Type::ForwardUrl => "FORWARD_URL"@,
    }
}

/// The record type whose wire code is `code`, among all ten types.
pub open spec fn type_from_code(code: Seq<char>) -> Option<Type> {
    if code == "A"@ {
        Some(Type::A)
    } else if code == "AAAA"@ {
        Some(Type::AAAA)
    } else if code == "CNAME"@ {
        Some(Type::Cname)
    } else if code == "MX"@ {
        Some(Type::MX)
    } else if code == "TXT"@ {
        Some(Type::TXT)
    } else if code == "NS"@ {
        Some(Type::NS)
    } else if code == "SOA"@ {
        Some(Type::SOA)
    } else if code == "PTR"@ {
        Some(Type::PTR)
    } else if code == "SRV"@ {
        Some(Type::SRV)
    } else if code == "FORWARD_URL"@ {
        Some(Type::ForwardUrl)
    } else {
        None
    }
}

/// The record type for `code`, or `A` when the code is unknown.
pub open spec fn type_from_code_or_a(code: Seq<char>) -> Type {
    match type_from_code(code) {
        Some(t) => t,
        None => Type::A,
    }
}

/// The record type for `code` among the nine types that the record editor
/// offers (no forward-URL records), or `A` when the code is not one of them.
pub open spec fn editor_type_from_code(code: Seq<char>) -> Type {
    match type_from_code(code) {
        Some(Type::ForwardUrl) => Type::A,
        Some(t) => t,
        None => Type::A,
    }
}

/// The five record types that Cloudflare records are mapped to.
pub open spec fn is_cloudflare_type(t: Type) -> bool {
    t == Type::A || t == Type::AAAA || t == Type::Cname || t == Type::MX || t == Type::TXT
}

/// The record type for a Cloudflare type code, or `A` for any other code.
pub open spec fn cloudflare_type_from_code(code: Seq<char>) -> Type {
    match type_from_code(code) {
        Some(t) => if is_cloudflare_type(t) {
            t
        } else {
            Type::A
        },
        None => Type::A,
    }
}

/// The Cloudflare type code for a record type; types Cloudflare is not
/// mapped to are sent as `A`.
pub open spec fn cloudflare_code(t: Type) -> Seq<char> {
    if is_cloudflare_type(t) {
        type_code(t)
    } else {
        "A"@
    }
}

impl Type {
    /// The wire code of the type.
    pub fn get_value(&self) -> (r: &'static str)
        ensures
            r@ == type_code(*self),
    {
        match self {
            Type::A => "A",
            Type::Cname => "CNAME",
            Type::MX => "MX",
            Type::AAAA => "AAAA",
            Type::TXT => "TXT",
            Type::NS => "NS",
            Type::SOA => "SOA",
            Type::PTR => "PTR",
            Type::SRV => "SRV",
            Type::ForwardUrl => "FORWARD_URL",
        }
    }

    /// The text shown for the type; the same as its wire code.
    pub fn to_display_string(&self) -> (r: String)
        ensures
            r@ == type_code(*self),
    {
        owned(self.get_value())
    }

    /// The type whose wire code is `code`, if any.
    pub fn from_code(code: &str) -> (r: Option<Type>)
        ensures
            r == type_from_code(code@),
    {
        if str_eq(code, "A") {
            Some(Type::A)
        } else if str_eq(code, "AAAA") {
            Some(Type::AAAA)
        } else if str_eq(code, "CNAME") {
            Some(Type::Cname)
        } else if str_eq(code, "MX") {
            Some(Type::MX)
        } else if str_eq(code, "TXT") {
            Some(Type::TXT)
        } else if str_eq(code, "NS") {
            Some(Type::NS)
        } else if str_eq(code, "SOA") {
            Some(Type::SOA)
        } else if str_eq(code, "PTR") {
            Some(Type::PTR)
        } else if str_eq(code, "SRV") {
            Some(Type::SRV)
        } else if str_eq(code, "FORWARD_URL") {
            Some(Type::ForwardUrl)
        } else {
            None
        }
    }

    /// The type for `code`, falling back to `A` for an unknown code.
    pub fn from_code_or_a(code: &str) -> (r: Type)
        ensures
            r == type_from_code_or_a(code@),
    {
        match Type::from_code(code) {
            Some(t) => t,
            None => Type::A,
        }
    }

    /// The type that the record editor selects for a stored code: one of
    /// the nine editable types, or `A`.
    pub fn from_editor_code(code: &str) -> (r: Type)
        ensures
            r == editor_type_from_code(code@),
    {
        match Type::from_code(code) {
            Some(Type::ForwardUrl) => Type::A,
            Some(t) => t,
            None => Type::A,
        }
    }

    /// The type for a code typed in any letter case: the code is
    /// upper-cased first, then looked up, with `A` as the fallback.
    pub fn from_code_any_case(code: &str) -> (r: Type)
        ensures
            r == type_from_code_or_a(uppercase(code@)),
    {
        let upper = to_uppercase(code);
        Type::from_code_or_a(upper.as_str())
    }
}

/// Every record type has one wire code, and that code names it back.
pub proof fn lemma_type_code_roundtrip(t: Type)
    ensures
        type_from_code(type_code(t)) == Some(t),
{
    reveal_strlit("A");
    reveal_strlit("AAAA");
    reveal_strlit("CNAME");
    reveal_strlit("MX");
    reveal_strlit("TXT");
    reveal_strlit("NS");
    reveal_strlit("SOA");
    reveal_strlit("PTR");
    reveal_strlit("SRV");
    reveal_strlit("FORWARD_URL");
    assert("A"@ =~= seq!['A']);
    assert("AAAA"@ =~= seq!['A', 'A', 'A', 'A']);
    assert("CNAME"@ =~= seq!['C', 'N', 'A', 'M', 'E']);
    assert("MX"@ =~= seq!['M', 'X']);
    assert("TXT"@ =~= seq!['T', 'X', 'T']);
    assert("NS"@ =~= seq!['N', 'S']);
    assert("SOA"@ =~= seq!['S', 'O', 'A']);
    assert("PTR"@ =~= seq!['P', 'T', 'R']);
    assert("SRV"@ =~= seq!['S', 'R', 'V']);
    assert("FORWARD_URL"@.len() == 11);
}

/// The ten record types the DNS API supports, in the order the API lists them.
pub open spec fn supported_types() -> Seq<Type> {
    seq![
        Type::A,
        Type::AAAA,
        Type::Cname,
        Type::MX,
        Type::TXT,
        Type::NS,
        Type::SOA,
        Type::PTR,
        Type::SRV,
        Type::ForwardUrl,
    ]
}

/// One DNS record.
#[derive(Debug, Clone)]
pub struct Record {
    pub status: Status,
    pub rr: String,
    pub line: Line,
    pub locked: bool,
    pub record_type: Type,
    pub value: String,
    pub record_id: String,
    pub update_timestamp: Option<i64>,
    pub ttl: i64,
    pub create_timestamp: i64,
    pub weight: Option<i64>,
}

/// A record as the library builds it from its parts: default line,
/// unlocked, with no timestamps and no weight.
pub open spec fn record_spec(
    status: Status,
    rr: Seq<char>,
    record_type: Type,
    value: Seq<char>,
    record_id: Seq<char>,
    ttl: i32,
    r: Record,
) -> bool {
    &&& r.status == status
    &&& r.rr@ == rr
    &&& r.line == Line::Default
    &&& !r.locked
    &&& r.record_type == record_type
    &&& r.value@ == value
    &&& r.record_id@ == record_id
    &&& r.update_timestamp is None
    &&& r.ttl == ttl as i64
    &&& r.create_timestamp == 0
    &&& r.weight is None
}

impl Record {
    /// Builds a record from its parts.
    pub fn new(
        status: Status,
        rr: String,
        record_type: Type,
        value: String,
        record_id: String,
        ttl: i32,
    ) -> (r: Record)
        ensures
            record_spec(status, rr@, record_type, value@, record_id@, ttl, r),
    {
        Record {
            status,
            rr,
            line: Line::Default,
            locked: false,
            record_type,
            value,
            record_id,
            update_timestamp: None,
            ttl: ttl as i64,
            create_timestamp: 0,
            weight: None,
        }
    }
}

/// The records of one domain, as one page of the record listing holds them.
#[derive(Debug, Clone)]
pub struct DomainRecords {
    pub record: Vec<Record>,
}

/// One page of the record listing.
#[derive(Debug, Clone)]
pub struct DnsRecordResponse {
    pub total_count: i64,
    pub page_size: i64,
    pub request_id: String,
    pub domain_records: DomainRecords,
    pub page_number: i64,
}

} // verus!
