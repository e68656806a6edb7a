//! The general laws of the schema: defaulting, strict rejection of
//! undeclared fields, exact round-tripping of required fields, order
//! preservation of the domain list, and determinism of parsing.  Each is
//! stated over the specification functions that the executable
//! functions' contracts are written against, and proved.

use vstd::prelude::*;

use crate::config::{
    spec_default_log_config, spec_default_resolver, spec_godaddy_base_url,
    spec_namecheap_base_url, SpecDnsConfig, SpecDomainConfig, SpecLogConfig,
};
use crate::doc_tree::{spec_first_unknown, spec_lookup, SpecNode, SpecPair};
use crate::errors::{spec_parse_error_message, SpecParseError};
use crate::validate::{
    spec_cloudflare_keys, spec_godaddy_keys, spec_log_keys, spec_namecheap_keys,
    spec_parse_document, spec_req_records, spec_req_text, spec_root_keys, spec_validate_cloudflare,
    spec_validate_entries, spec_validate_entry, spec_validate_godaddy, spec_validate_log,
    spec_validate_namecheap, spec_validate_root,
};

verus! {

broadcast use vstd::seq::group_seq_axioms;

/// What `spec_first_unknown` returns: a key of the table that is not
/// among the declared names, or the assurance that every key is declared.
pub proof fn lemma_first_unknown_characterises(pairs: Seq<SpecPair>, allowed: Seq<Seq<char>>)
    ensures
        match spec_first_unknown(pairs, allowed) {
            Some(k) => (exists|i: int| 0 <= i < pairs.len() && #[trigger] pairs[i].key == k)
                && !allowed.contains(k),
            None => forall|i: int| 0 <= i < pairs.len() ==> allowed.contains(#[trigger] pairs[i].key),
        },
    decreases pairs.len(),
{
    if pairs.len() != 0 {
        lemma_first_unknown_characterises(pairs.skip(1), allowed);
        if allowed.contains(pairs[0].key) {
            match spec_first_unknown(pairs.skip(1), allowed) {
                Some(k) => {
                    let i: int = choose|i: int|
                        0 <= i < pairs.skip(1).len() && pairs.skip(1)[i].key == k;
                    assert(pairs[i + 1].key == k);
                },
                None => {
                    assert forall|i: int| 0 <= i < pairs.len() implies allowed.contains(
                        pairs[i].key,
                    ) by {
                        if i > 0 {
                            assert(pairs.skip(1)[i - 1] == pairs[i]);
                        }
                    }
                },
            }
        }
    }
}

/// A document whose root holds any field name the schema does not
/// declare fails validation, with an unknown-field error that carries
/// such a key of the document.
pub proof fn lemma_unknown_root_field_rejected(pairs: Seq<SpecPair>)
    requires
        exists|i: int| 0 <= i < pairs.len() && !spec_root_keys().contains(#[trigger] pairs[i].key),
    ensures
        exists|k: Seq<char>|
            {
                &&& spec_validate_root(SpecNode::Table(pairs)) == Err::<
                    SpecDnsConfig,
                    SpecParseError,
                >(SpecParseError::UnknownField(k))
                &&& exists|i: int| 0 <= i < pairs.len() && #[trigger] pairs[i].key == k
                &&& !spec_root_keys().contains(k)
            },
{
    lemma_first_unknown_characterises(pairs, spec_root_keys());
    match spec_first_unknown(pairs, spec_root_keys()) {
        Some(k) => {
            assert(spec_validate_root(SpecNode::Table(pairs)) == Err::<
                SpecDnsConfig,
                SpecParseError,
            >(SpecParseError::UnknownField(k)));
        },
        None => {
            assert(false);
        },
    }
}

/// An undeclared key, once it exists, is found by the scan.
proof fn lemma_unknown_exists_found(pairs: Seq<SpecPair>, allowed: Seq<Seq<char>>)
    requires
        exists|i: int| 0 <= i < pairs.len() && !allowed.contains(#[trigger] pairs[i].key),
    ensures
        spec_first_unknown(pairs, allowed) is Some,
{
    lemma_first_unknown_characterises(pairs, allowed);
}

/// An undeclared field name inside the `log` table fails its validation
/// with an unknown-field error that carries such a key.
pub proof fn lemma_unknown_log_field_rejected(pairs: Seq<SpecPair>)
    requires
        exists|i: int| 0 <= i < pairs.len() && !spec_log_keys().contains(#[trigger] pairs[i].key),
    ensures
        exists|k: Seq<char>|
            {
                &&& spec_validate_log(pairs) == Err::<SpecLogConfig, SpecParseError>(
                    SpecParseError::UnknownField(k),
                )
                &&& exists|i: int| 0 <= i < pairs.len() && #[trigger] pairs[i].key == k
                &&& !spec_log_keys().contains(k)
            },
{
    lemma_first_unknown_characterises(pairs, spec_log_keys());
}

/// An undeclared field name inside a domain entry fails the selected
/// variant's validation with an unknown-field error, whichever provider
/// the `type` discriminator names.
pub proof fn lemma_unknown_entry_field_rejected(pairs: Seq<SpecPair>)
    ensures
        (exists|i: int|
            0 <= i < pairs.len() && !spec_cloudflare_keys().contains(#[trigger] pairs[i].key))
            ==> spec_validate_cloudflare(pairs) matches Err(SpecParseError::UnknownField(_)),
        (exists|i: int|
            0 <= i < pairs.len() && !spec_godaddy_keys().contains(#[trigger] pairs[i].key))
            ==> spec_validate_godaddy(pairs) matches Err(SpecParseError::UnknownField(_)),
        (exists|i: int|
            0 <= i < pairs.len() && !spec_namecheap_keys().contains(#[trigger] pairs[i].key))
            ==> spec_validate_namecheap(pairs) matches Err(SpecParseError::UnknownField(_)),
{
    if exists|i: int|
        0 <= i < pairs.len() && !spec_cloudflare_keys().contains(#[trigger] pairs[i].key) {
        lemma_unknown_exists_found(pairs, spec_cloudflare_keys());
    }
    if exists|i: int|
        0 <= i < pairs.len() && !spec_godaddy_keys().contains(#[trigger] pairs[i].key) {
        lemma_unknown_exists_found(pairs, spec_godaddy_keys());
    }
    if exists|i: int|
        0 <= i < pairs.len() && !spec_namecheap_keys().contains(#[trigger] pairs[i].key) {
        lemma_unknown_exists_found(pairs, spec_namecheap_keys());
    }
}

/// The diagnostic of an unknown-field error names the offending field:
/// the field's name stands in the message, right after the opening
/// backquote.
pub proof fn lemma_unknown_field_message_names_field(k: Seq<char>)
    ensures
        spec_parse_error_message(SpecParseError::UnknownField(k)).subrange(
            15,
            15 + k.len() as int,
        ) == k,
{
    reveal_strlit("unknown field `");
    reveal_strlit("`");
    assert(("unknown field `"@ + k + "`"@).subrange(15, 15 + k.len() as int) =~= k);
}

/// The empty document yields the fully defaulted configuration:
/// `opendns`, log level `Info`, and no domains.
pub proof fn lemma_empty_document_defaults()
    ensures
        spec_validate_root(SpecNode::Table(Seq::empty())) == Ok::<SpecDnsConfig, SpecParseError>(
            crate::config::spec_default_config(),
        ),
{
}

/// A document that omits `ip_resolver` gets the declared default, and
/// one that supplies it as text keeps the supplied value — defaulting is
/// per field, untouched by what the sibling fields hold.
pub proof fn lemma_ip_resolver_defaulting(pairs: Seq<SpecPair>, c: SpecDnsConfig)
    requires
        spec_validate_root(SpecNode::Table(pairs)) == Ok::<SpecDnsConfig, SpecParseError>(c),
    ensures
        spec_lookup(pairs, "ip_resolver"@) is None ==> c.ip_resolver == spec_default_resolver(),
        forall|u: Seq<char>|
            spec_lookup(pairs, "ip_resolver"@) == Some(SpecNode::Text(u)) ==> c.ip_resolver == u,
{
}

/// A document that omits `log` gets the default logging configuration,
/// and one that omits `domains` gets the empty domain list.
pub proof fn lemma_absent_sections_default(pairs: Seq<SpecPair>, c: SpecDnsConfig)
    requires
        spec_validate_root(SpecNode::Table(pairs)) == Ok::<SpecDnsConfig, SpecParseError>(c),
    ensures
        spec_lookup(pairs, "log"@) is None ==> c.log == spec_default_log_config(),
        spec_lookup(pairs, "domains"@) is None ==> c.domains == Seq::<SpecDomainConfig>::empty(),
{
}

/// A Cloudflare entry round-trips exactly: every field of the validated
/// entry is the very value the document supplies, with no defaulting.
pub proof fn lemma_cloudflare_fields_exact(pairs: Seq<SpecPair>, d: SpecDomainConfig)
    requires
        spec_validate_cloudflare(pairs) == Ok::<SpecDomainConfig, SpecParseError>(d),
    ensures
        d matches SpecDomainConfig::Cloudflare(c) && {
            &&& spec_req_text(pairs, "email"@) == Ok::<Seq<char>, SpecParseError>(c.email)
            &&& spec_req_text(pairs, "key"@) == Ok::<Seq<char>, SpecParseError>(c.key)
            &&& spec_req_text(pairs, "token"@) == Ok::<Seq<char>, SpecParseError>(c.token)
            &&& spec_req_text(pairs, "zone"@) == Ok::<Seq<char>, SpecParseError>(c.zone)
            &&& spec_req_records(pairs, "records"@) == Ok::<Seq<Seq<char>>, SpecParseError>(
                c.records,
            )
        },
{
}

/// A GoDaddy entry that omits `base_url` gets the declared default URL;
/// one that supplies it as text keeps the supplied value.
pub proof fn lemma_godaddy_base_url_defaulting(pairs: Seq<SpecPair>, d: SpecDomainConfig)
    requires
        spec_validate_godaddy(pairs) == Ok::<SpecDomainConfig, SpecParseError>(d),
    ensures
        d matches SpecDomainConfig::GoDaddy(g) && {
            &&& spec_lookup(pairs, "base_url"@) is None ==> g.base_url
                == spec_godaddy_base_url()
            &&& forall|u: Seq<char>|
                spec_lookup(pairs, "base_url"@) == Some(SpecNode::Text(u)) ==> g.base_url == u
        },
{
}

/// A Namecheap entry that omits `base_url` gets the declared default
/// URL; one that supplies it as text keeps the supplied value.
pub proof fn lemma_namecheap_base_url_defaulting(pairs: Seq<SpecPair>, d: SpecDomainConfig)
    requires
        spec_validate_namecheap(pairs) == Ok::<SpecDomainConfig, SpecParseError>(d),
    ensures
        d matches SpecDomainConfig::Namecheap(n) && {
            &&& spec_lookup(pairs, "base_url"@) is None ==> n.base_url
                == spec_namecheap_base_url()
            &&& forall|u: Seq<char>|
                spec_lookup(pairs, "base_url"@) == Some(SpecNode::Text(u)) ==> n.base_url == u
        },
{
}

/// A validated `domains` array preserves insertion order: one entry per
/// document element, each validated from the element at its own index.
pub proof fn lemma_entries_order(items: Seq<SpecNode>, ds: Seq<SpecDomainConfig>)
    requires
        spec_validate_entries(items) == Ok::<Seq<SpecDomainConfig>, SpecParseError>(ds),
    ensures
        ds.len() == items.len(),
        forall|i: int|
            0 <= i < items.len() ==> spec_validate_entry(#[trigger] items[i]) == Ok::<
                SpecDomainConfig,
                SpecParseError,
            >(ds[i]),
    decreases items.len(),
{
    if items.len() != 0 {
        match spec_validate_entry(items[0]) {
            Ok(d) => {
                match spec_validate_entries(items.skip(1)) {
                    Ok(rest) => {
                        lemma_entries_order(items.skip(1), rest);
                        assert(ds == seq![d] + rest);
                        assert forall|i: int| 0 <= i < items.len() implies spec_validate_entry(
                            items[i],
                        ) == Ok::<SpecDomainConfig, SpecParseError>(ds[i]) by {
                            if i > 0 {
                                assert(items.skip(1)[i - 1] == items[i]);
                                assert(ds[i] == rest[i - 1]);
                            }
                        }
                    },
                    Err(_) => {
                        assert(false);
                    },
                }
            },
            Err(_) => {
                assert(false);
            },
        }
    }
}

/// Parsing is deterministic: the outcome of loading document text is a
/// function of the text alone, so two loads of the same text yield
/// value-equal results.
pub proof fn lemma_parse_deterministic(
    t: Seq<char>,
    r1: Result<SpecDnsConfig, SpecParseError>,
    r2: Result<SpecDnsConfig, SpecParseError>,
)
    requires
        r1 == spec_parse_document(t),
        r2 == spec_parse_document(t),
    ensures
        r1 == r2,
{
}

} // verus!