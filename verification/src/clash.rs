//! The configuration patch handed to the proxy core.
//!
//! The proxy core takes its runtime configuration as a YAML mapping; at
//! startup the resolved mixed port is mirrored into one under the key
//! `mixed-port`. The mapping type belongs to `serde_yaml`; what it holds is
//! named by `mapping_contents` and every call the logic makes is wrapped
//! with a contract over that name.

use vstd::prelude::*;

verus! {

/// `serde_yaml::Mapping`, declared so its values can flow through verified
/// code.
#[verifier::external_type_specification]
#[verifier::external_body]
pub struct ExMapping(serde_yaml::Mapping);

/// The entries of a `serde_yaml::Mapping` that have a string key and an
/// integer value representable as `i64`.
pub uninterp spec fn mapping_contents(m: serde_yaml::Mapping) -> Map<Seq<char>, int>;

/// The contents of a mapping that holds nothing.
pub open spec fn empty_contents() -> Map<Seq<char>, int> {
    Map::empty()
}

/// Relies on `serde_yaml::Mapping::new`: it creates an empty mapping.
#[verifier::external_body]
fn new_mapping() -> (m: serde_yaml::Mapping)
    ensures
        mapping_contents(m) == empty_contents(),
{
    serde_yaml::Mapping::new()
}

/// Relies on `serde_yaml::Mapping::insert`: it maps the key to the value,
/// replacing any earlier entry under that key.
#[verifier::external_body]
fn mapping_insert_port(m: &mut serde_yaml::Mapping, key: &str, port: u16)
    ensures
        mapping_contents(*final(m)) == mapping_contents(*old(m)).insert(key@, port as int),
{
    m.insert(serde_yaml::Value::String(key.to_owned()), serde_yaml::Value::from(port));
}

/// Relies on `serde_yaml::Mapping::get` and `serde_yaml::Value::as_i64`: the
/// integer entry under a string key, when there is one.
#[verifier::external_body]
fn mapping_get_int(m: &serde_yaml::Mapping, key: &str) -> (entry: Option<i64>)
    ensures
        match entry {
            Some(v) => mapping_contents(*m).dom().contains(key@) && mapping_contents(*m)[key@]
                == v as int,
            None => !mapping_contents(*m).dom().contains(key@),
        },
{
    match m.get(key) {
        Some(v) => v.as_i64(),
        None => None,
    }
}

/// The key the proxy core reads the mixed port under.
pub open spec fn mixed_port_key() -> Seq<char> {
    "mixed-port"@
}

/// Build the one-entry configuration patch for the proxy core: the resolved
/// port under the key `mixed-port`.
pub fn build_port_mapping(port: u16) -> (m: serde_yaml::Mapping)
    ensures
        mapping_contents(m) == empty_contents().insert(mixed_port_key(), port as int),
{
    let mut m = new_mapping();
    mapping_insert_port(&mut m, "mixed-port", port);
    m
}

/// Read the `mixed-port` entry back out of a patch mapping.
pub fn read_mixed_port(m: &serde_yaml::Mapping) -> (entry: Option<i64>)
    ensures
        match entry {
            Some(v) => mapping_contents(*m).dom().contains(mixed_port_key()) && mapping_contents(
                *m,
            )[mixed_port_key()] == v as int,
            None => !mapping_contents(*m).dom().contains(mixed_port_key()),
        },
{
    mapping_get_int(m, "mixed-port")
}

} // verus!
