//! Item records fetched from the query service, and their metadata.

use vstd::prelude::*;
use vstd::string::StringExecFns;
use crate::dup::Duplicate;
use crate::json::{is_json_document, json_quote, json_string_literal, parse_json};

verus! {

/// Structured attributes of one item.
#[derive(Debug, Clone, PartialEq)]
pub struct TokenMetadata {
    pub title: Option<String>,
    pub description: Option<String>,
    pub media: Option<String>,
    pub media_hash: Option<String>,
    pub copies: Option<u64>,
    pub issued_at: Option<String>,
    pub expires_at: Option<String>,
    pub starts_at: Option<String>,
    pub updated_at: Option<String>,
    pub extra: Option<String>,
    pub reference: Option<String>,
    pub reference_hash: Option<String>,
    pub collection_id: Option<String>,
}

impl Duplicate for TokenMetadata {
    fn duplicate(&self) -> (r: Self) {
        TokenMetadata {
            title: self.title.duplicate(),
            description: self.description.duplicate(),
            media: self.media.duplicate(),
            media_hash: self.media_hash.duplicate(),
            copies: self.copies,
            issued_at: self.issued_at.duplicate(),
            expires_at: self.expires_at.duplicate(),
            starts_at: self.starts_at.duplicate(),
            updated_at: self.updated_at.duplicate(),
            extra: self.extra.duplicate(),
            reference: self.reference.duplicate(),
            reference_hash: self.reference_hash.duplicate(),
            collection_id: self.collection_id.duplicate(),
        }
    }
}

/// An item as the query service returns it. Its identity is the pair of
/// contract and item identifier.
#[derive(Debug, Clone, PartialEq)]
pub struct Token {
    pub _id: Option<String>,
    pub token_id: String,
    pub owner_id: String,
    pub metadata: Option<TokenMetadata>,
    pub metadata_extra: Option<serde_json::Value>,
    /// Each approved account with its approval id.
    pub approved_account_ids: Option<Vec<(String, u64)>>,
    pub contract_account_id: Option<String>,
}

/// `"{contract_id}:{token_id}"`.
pub open spec fn composite_id(contract_id: Seq<char>, token_id: Seq<char>) -> Seq<char> {
    contract_id + seq![':'] + token_id
}

/// The composite identifier, where the contract is known.
pub open spec fn derived_id_of(t: Token) -> Option<Seq<char>> {
    match t.contract_account_id {
        Some(c) => Some(composite_id(c@, t.token_id@)),
        None => None,
    }
}

/// The views of an optional string.
pub open spec fn opt_view(o: Option<String>) -> Option<Seq<char>> {
    match o {
        Some(s) => Some(s@),
        None => None,
    }
}

impl Token {
    /// `"{contract_id}:{token_id}"`.
    pub fn build_id(contract_id: &str, token_id: &str) -> (r: String)
        ensures
            r@ == composite_id(contract_id@, token_id@),
    {
        let mut r = contract_id.to_owned();
        r.append(":");
        proof {
            reveal_strlit(":");
        }
        r.append(token_id);
        r
    }

    /// The composite identifier, where the contract is known.
    pub fn derive_id(&self) -> (r: Option<String>)
        ensures
            opt_view(r) == derived_id_of(*self),
    {
        match &self.contract_account_id {
            Some(c) => Some(Token::build_id(c.as_str(), self.token_id.as_str())),
            None => None,
        }
    }

    /// Stores the derived identifier as the item's own.
    pub fn set_id(&mut self)
        ensures
            opt_view(final(self)._id) == derived_id_of(*old(self)),
            final(self).token_id == old(self).token_id,
            final(self).owner_id == old(self).owner_id,
            final(self).metadata == old(self).metadata,
            final(self).metadata_extra == old(self).metadata_extra,
            final(self).approved_account_ids == old(self).approved_account_ids,
            final(self).contract_account_id == old(self).contract_account_id,
    {
        self._id = self.derive_id();
    }

    /// The stored identifier, or else the derived one.
    pub fn get_id(&self) -> (r: Option<String>)
        ensures
            opt_view(r) == match self._id {
                Some(id) => Some(id@),
                None => derived_id_of(*self),
            },
    {
        match &self._id {
            Some(id) => Some(id.clone()),
            None => self.derive_id(),
        }
    }
}

/// The metadata of each fetched item, in order; nothing for an item that
/// could not be fetched.
pub open spec fn metadatas_of(tokens: Seq<Option<Token>>) -> Seq<Option<TokenMetadata>> {
    tokens.map_values(|t: Option<Token>| match t {
        Some(t) => t.metadata,
        None => None,
    })
}

/// Whether an item's metadata has a free-form extra field that is a JSON
/// document.
pub open spec fn extra_is_json(m: Option<TokenMetadata>) -> bool {
    match m {
        Some(m) => match m.extra {
            Some(x) => is_json_document(x@),
            None => false,
        },
        None => false,
    }
}

/// The parsed extra values go with the metadata one for one: a value exactly
/// where the metadata's extra field is a JSON document.
pub open spec fn extras_fit(metas: Seq<Option<TokenMetadata>>, extras: Seq<Option<serde_json::Value>>) -> bool {
    &&& extras.len() == metas.len()
    &&& forall|i: int| 0 <= i < metas.len() ==> (#[trigger] extras[i]).is_some() == extra_is_json(metas[i])
}

/// The metadata of each fetched item, in input order, and the parsed extra
/// field of each. An item that could not be fetched has no metadata, and
/// leaves the others as they are.
pub fn get_metadatas(tokens: &Vec<Option<Token>>) -> (r: (Vec<Option<TokenMetadata>>, Vec<Option<serde_json::Value>>))
    ensures
        r.0@ == metadatas_of(tokens@),
        extras_fit(r.0@, r.1@),
{
    let mut metas: Vec<Option<TokenMetadata>> = Vec::new();
    let mut extras: Vec<Option<serde_json::Value>> = Vec::new();
    let mut i: usize = 0;
    while i < tokens.len()
        invariant
            i <= tokens@.len(),
            metas@ == metadatas_of(tokens@).subrange(0, i as int),
            extras_fit(metas@, extras@),
        decreases tokens@.len() - i,
    {
        let m: Option<TokenMetadata> = match &tokens[i] {
            Some(t) => t.metadata.duplicate(),
            None => None,
        };
        let x: Option<serde_json::Value> = match &m {
            Some(md) => match &md.extra {
                Some(e) => parse_json(e.as_str()),
                None => None,
            },
            None => None,
        };
        assert(x.is_some() == extra_is_json(m));
        metas.push(m);
        extras.push(x);
        i = i + 1;
        assert(metas@ =~= metadatas_of(tokens@).subrange(0, i as int));
    }
    assert(metadatas_of(tokens@).subrange(0, i as int) =~= metadatas_of(tokens@));
    (metas, extras)
}

/// The arguments of the item lookup call: `{"token_id":<id as a JSON string>}`.
pub open spec fn token_args_of(token_id: Seq<char>) -> Seq<char> {
    seq!['{', '"', 't', 'o', 'k', 'e', 'n', '_', 'i', 'd', '"', ':'] + json_string_literal(token_id)
        + seq!['}']
}

/// The JSON arguments of the query that looks an item up.
pub fn nft_token_args(token_id: &str) -> (r: String)
    ensures
        r@ == token_args_of(token_id@),
{
    let mut r = String::from_str("{\"token_id\":");
    let q = json_quote(token_id);
    r.append(q.as_str());
    r.append("}");
    proof {
        reveal_strlit("{\"token_id\":");
        reveal_strlit("}");
    }
    assert(r@ =~= token_args_of(token_id@));
    r
}

} // verus!
