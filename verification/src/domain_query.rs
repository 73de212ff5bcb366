//! The answer of the Aliyun domain service to a domain list query.

use vstd::prelude::*;

verus! {

/// One page of the domain list.
#[derive(Debug)]
pub struct DomainQueryResponse {
    pub pre_page: bool,
    pub current_page_num: i32,
    pub request_id: String,
    pub page_size: i32,
    pub total_page_num: i32,
    pub data: Data,
    pub total_item_num: i32,
    pub next_page: bool,
}

/// The domains of a page.
#[derive(Debug)]
pub struct Data {
    pub domain: Vec<Domain>,
}

/// A registered domain as the domain service describes it.
#[derive(Debug)]
pub struct Domain {
    pub registrant_type: String,
    pub registration_date: String,
    pub expiration_curr_date_diff: i64,
    pub registration_date_long: i64,
    pub resource_group_id: String,
    pub instance_id: String,
    pub domain_name: String,
    pub premium: bool,
    pub product_id: String,
    pub domain_audit_status: String,
    pub ccompany: String,
    pub expiration_date_long: i64,
    pub expiration_date_status: String,
    pub domain_type: String,
    pub expiration_date: String,
    pub chgholder_status: String,
    pub tag: DomainTag,
    pub domain_status: String,
}

/// The tags of a domain.
#[derive(Debug)]
pub struct DomainTag {
    pub tag: Vec<TagElement>,
}

/// One tag: a key and its value.
#[derive(Debug)]
pub struct TagElement {
    pub value: String,
    pub key: String,
}

} // verus!
