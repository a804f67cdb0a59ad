//! Verified mapping from JSON values to the typed records.
//!
//! Each mapper states exactly which JSON shapes it accepts and what record a
//! shape yields: a required field must be present with the right type, an
//! optional field may be absent or `null`, and nothing is defaulted. A mapper
//! returns `None` precisely on the shapes it rejects.

use vstd::prelude::*;

use crate::json::Json;
use crate::model::{Field, FieldView, OPVault, OPVaultView, Url, UrlView, User, UserView};
use crate::model::{Vault, VaultItem, VaultItemView, VaultView};

verus! {

/// The string under `key`, when `j` has one there.
pub open spec fn spec_req_str(j: Json, key: Seq<char>) -> Option<Seq<char>> {
    match j.spec_get(key) {
        Some(Json::Str(s)) => Some(s@),
        _ => None,
    }
}

/// An optional string field is in order when it is absent, `null`, or a
/// string.
pub open spec fn opt_str_ok(j: Json, key: Seq<char>) -> bool {
    match j.spec_get(key) {
        None => true,
        Some(Json::Null) => true,
        Some(Json::Str(_)) => true,
        Some(_) => false,
    }
}

/// The value of an optional string field: present only when the field holds a
/// string.
pub open spec fn spec_opt_str(j: Json, key: Seq<char>) -> Option<Seq<char>> {
    match j.spec_get(key) {
        Some(Json::Str(s)) => Some(s@),
        _ => None,
    }
}

/// An optional boolean field is in order when it is absent, `null`, or a
/// boolean.
pub open spec fn opt_bool_ok(j: Json, key: Seq<char>) -> bool {
    match j.spec_get(key) {
        None => true,
        Some(Json::Null) => true,
        Some(Json::Bool(_)) => true,
        Some(_) => false,
    }
}

/// The value of an optional boolean field.
pub open spec fn spec_opt_bool(j: Json, key: Seq<char>) -> Option<bool> {
    match j.spec_get(key) {
        Some(Json::Bool(b)) => Some(b),
        _ => None,
    }
}

/// A required `u32` field is in order when it holds an integer in `u32`
/// range.
pub open spec fn req_u32_ok(j: Json, key: Seq<char>) -> bool {
    match j.spec_get(key) {
        Some(Json::Int(x)) => 0 <= x <= u32::MAX,
        _ => false,
    }
}

/// The value of a required `u32` field.
pub open spec fn spec_req_u32(j: Json, key: Seq<char>) -> u32
    recommends
        req_u32_ok(j, key),
{
    match j.spec_get(key) {
        Some(Json::Int(x)) => x as u32,
        _ => 0,
    }
}

/// Reads a required string field.
fn req_str(j: &Json, key: &str) -> (r: Option<String>)
    ensures
        r.deep_view() == spec_req_str(*j, key@),
{
    match j.get(key) {
        Some(Json::Str(s)) => Some(s.clone()),
        _ => None,
    }
}

/// Reads an optional string field; the outer `None` reports a value of the
/// wrong type.
fn opt_str(j: &Json, key: &str) -> (r: Option<Option<String>>)
    ensures
        r is Some <==> opt_str_ok(*j, key@),
        r matches Some(v) ==> v.deep_view() == spec_opt_str(*j, key@),
{
    match j.get(key) {
        None => Some(None),
        Some(Json::Null) => Some(None),
        Some(Json::Str(s)) => Some(Some(s.clone())),
        Some(_) => None,
    }
}

/// Reads an optional boolean field; the outer `None` reports a value of the
/// wrong type.
fn opt_bool(j: &Json, key: &str) -> (r: Option<Option<bool>>)
    ensures
        r is Some <==> opt_bool_ok(*j, key@),
        r matches Some(v) ==> v == spec_opt_bool(*j, key@),
{
    match j.get(key) {
        None => Some(None),
        Some(Json::Null) => Some(None),
        Some(Json::Bool(b)) => Some(Some(*b)),
        Some(_) => None,
    }
}

/// Reads a required `u32` field.
fn req_u32(j: &Json, key: &str) -> (r: Option<u32>)
    ensures
        r is Some <==> req_u32_ok(*j, key@),
        r matches Some(v) ==> v == spec_req_u32(*j, key@),
{
    match j.get(key) {
        Some(Json::Int(x)) => {
            let x = *x;
            if 0 <= x && x <= u32::MAX as i64 {
                Some(x as u32)
            } else {
                None
            }
        },
        _ => None,
    }
}

/// A JSON value maps to a `Vault` summary when it carries the two required
/// strings.
pub open spec fn vault_shape_ok(j: Json) -> bool {
    &&& spec_req_str(j, "id"@) is Some
    &&& spec_req_str(j, "name"@) is Some
}

/// The `Vault` a well-shaped JSON value maps to.
pub open spec fn spec_vault_of(j: Json) -> VaultView
    recommends
        vault_shape_ok(j),
{
    VaultView { id: spec_req_str(j, "id"@)->Some_0, name: spec_req_str(j, "name"@)->Some_0 }
}

/// Maps a JSON value to a `Vault` summary; `None` exactly on the shapes
/// `vault_shape_ok` rejects.
pub fn parse_vault(j: &Json) -> (r: Option<Vault>)
    ensures
        r is Some <==> vault_shape_ok(*j),
        r matches Some(v) ==> v@ == spec_vault_of(*j),
{
    let id = match req_str(j, "id") {
        Some(s) => s,
        None => { return None },
    };
    let name = match req_str(j, "name") {
        Some(s) => s,
        None => { return None },
    };
    Some(Vault { id, name })
}

/// A JSON value maps to a `Url` when its `href` is a string and its optional
/// attributes, where present, have the right types.
pub open spec fn url_shape_ok(j: Json) -> bool {
    &&& opt_str_ok(j, "label"@)
    &&& opt_bool_ok(j, "primary"@)
    &&& spec_req_str(j, "href"@) is Some
}

/// The `Url` a well-shaped JSON value maps to.
pub open spec fn spec_url_of(j: Json) -> UrlView
    recommends
        url_shape_ok(j),
{
    UrlView {
        label: spec_opt_str(j, "label"@),
        primary: spec_opt_bool(j, "primary"@),
        href: spec_req_str(j, "href"@)->Some_0,
    }
}

/// Maps a JSON value to a `Url`; `None` exactly on the shapes `url_shape_ok`
/// rejects.
pub fn parse_url(j: &Json) -> (r: Option<Url>)
    ensures
        r is Some <==> url_shape_ok(*j),
        r matches Some(v) ==> v@ == spec_url_of(*j),
{
    let label = match opt_str(j, "label") {
        Some(v) => v,
        None => { return None },
    };
    let primary = match opt_bool(j, "primary") {
        Some(v) => v,
        None => { return None },
    };
    let href = match req_str(j, "href") {
        Some(s) => s,
        None => { return None },
    };
    Some(Url { label, primary, href })
}

/// A JSON value maps to a `Field` when its identifier and type tag are
/// strings and its optional attributes, where present, have the right types.
pub open spec fn field_shape_ok(j: Json) -> bool {
    &&& spec_req_str(j, "id"@) is Some
    &&& spec_req_str(j, "type"@) is Some
    &&& opt_str_ok(j, "purpose"@)
    &&& opt_str_ok(j, "label"@)
    &&& opt_str_ok(j, "value"@)
    &&& opt_str_ok(j, "reference"@)
}

/// The `Field` a well-shaped JSON value maps to; the JSON key `type` feeds
/// the record's `field_type`.
pub open spec fn spec_field_of(j: Json) -> FieldView
    recommends
        field_shape_ok(j),
{
    FieldView {
        id: spec_req_str(j, "id"@)->Some_0,
        field_type: spec_req_str(j, "type"@)->Some_0,
        purpose: spec_opt_str(j, "purpose"@),
        label: spec_opt_str(j, "label"@),
        value: spec_opt_str(j, "value"@),
        reference: spec_opt_str(j, "reference"@),
    }
}

/// Maps a JSON value to a `Field`; `None` exactly on the shapes
/// `field_shape_ok` rejects.
pub fn parse_field(j: &Json) -> (r: Option<Field>)
    ensures
        r is Some <==> field_shape_ok(*j),
        r matches Some(v) ==> v@ == spec_field_of(*j),
{
    let id = match req_str(j, "id") {
        Some(s) => s,
        None => { return None },
    };
    let field_type = match req_str(j, "type") {
        Some(s) => s,
        None => { return None },
    };
    let purpose = match opt_str(j, "purpose") {
        Some(v) => v,
        None => { return None },
    };
    let label = match opt_str(j, "label") {
        Some(v) => v,
        None => { return None },
    };
    let value = match opt_str(j, "value") {
        Some(v) => v,
        None => { return None },
    };
    let reference = match opt_str(j, "reference") {
        Some(v) => v,
        None => { return None },
    };
    Some(Field { id, field_type, purpose, label, value, reference })
}

/// Every element of the sequence maps to a `Url`.
pub open spec fn urls_shape_ok(elems: Seq<Json>) -> bool {
    forall|i: int| 0 <= i < elems.len() ==> url_shape_ok(#[trigger] elems[i])
}

/// The `Url`s a well-shaped sequence maps to, in order.
pub open spec fn spec_urls_of(elems: Seq<Json>) -> Seq<UrlView> {
    Seq::new(elems.len(), |i: int| spec_url_of(elems[i]))
}

/// Maps a JSON array to `Url`s; `None` exactly when some element is
/// rejected.
pub fn parse_urls(elems: &Vec<Json>) -> (r: Option<Vec<Url>>)
    ensures
        r is Some <==> urls_shape_ok(elems@),
        r matches Some(v) ==> v.deep_view() == spec_urls_of(elems@),
{
    let n = elems.len();
    let mut out: Vec<Url> = Vec::new();
    let mut i: usize = 0;
    while i < n
        invariant
            i <= n,
            n == elems@.len(),
            out@.len() == i,
            forall|k: int| 0 <= k < i ==> url_shape_ok(#[trigger] elems@[k]),
            forall|k: int| 0 <= k < i ==> (#[trigger] out@[k])@ == spec_url_of(elems@[k]),
        decreases n - i,
    {
        match parse_url(&elems[i]) {
            Some(u) => out.push(u),
            None => { return None },
        }
        i = i + 1;
    }
    proof {
        assert forall|k: int| 0 <= k < n implies out.deep_view()[k] == spec_urls_of(elems@)[k] by {
            assert(out.deep_view()[k] == out@[k]@);
        }
        assert(out.deep_view() =~= spec_urls_of(elems@));
    }
    Some(out)
}

/// Every element of the sequence maps to a `Field`.
pub open spec fn fields_shape_ok(elems: Seq<Json>) -> bool {
    forall|i: int| 0 <= i < elems.len() ==> field_shape_ok(#[trigger] elems[i])
}

/// The `Field`s a well-shaped sequence maps to, in order.
pub open spec fn spec_fields_of(elems: Seq<Json>) -> Seq<FieldView> {
    Seq::new(elems.len(), |i: int| spec_field_of(elems[i]))
}

/// Maps a JSON array to `Field`s; `None` exactly when some element is
/// rejected.
pub fn parse_fields(elems: &Vec<Json>) -> (r: Option<Vec<Field>>)
    ensures
        r is Some <==> fields_shape_ok(elems@),
        r matches Some(v) ==> v.deep_view() == spec_fields_of(elems@),
{
    let n = elems.len();
    let mut out: Vec<Field> = Vec::new();
    let mut i: usize = 0;
    while i < n
        invariant
            i <= n,
            n == elems@.len(),
            out@.len() == i,
            forall|k: int| 0 <= k < i ==> field_shape_ok(#[trigger] elems@[k]),
            forall|k: int| 0 <= k < i ==> (#[trigger] out@[k])@ == spec_field_of(elems@[k]),
        decreases n - i,
    {
        match parse_field(&elems[i]) {
            Some(f) => out.push(f),
            None => { return None },
        }
        i = i + 1;
    }
    proof {
        assert forall|k: int| 0 <= k < n implies out.deep_view()[k] == spec_fields_of(elems@)[k] by {
            assert(out.deep_view()[k] == out@[k]@);
        }
        assert(out.deep_view() =~= spec_fields_of(elems@));
    }
    Some(out)
}

/// Every element of the sequence is a string.
pub open spec fn strings_shape_ok(elems: Seq<Json>) -> bool {
    forall|i: int| 0 <= i < elems.len() ==> #[trigger] elems[i] is Str
}

/// The strings a well-shaped sequence holds, in order.
pub open spec fn spec_strings_of(elems: Seq<Json>) -> Seq<Seq<char>> {
    Seq::new(elems.len(), |i: int| elems[i]->Str_0@)
}

/// Maps a JSON array to its strings; `None` exactly when some element is not
/// a string.
pub fn parse_strings(elems: &Vec<Json>) -> (r: Option<Vec<String>>)
    ensures
        r is Some <==> strings_shape_ok(elems@),
        r matches Some(v) ==> v.deep_view() == spec_strings_of(elems@),
{
    let n = elems.len();
    let mut out: Vec<String> = Vec::new();
    let mut i: usize = 0;
    while i < n
        invariant
            i <= n,
            n == elems@.len(),
            out@.len() == i,
            forall|k: int| 0 <= k < i ==> #[trigger] elems@[k] is Str,
            forall|k: int| 0 <= k < i ==> (#[trigger] out@[k])@ == elems@[k]->Str_0@,
        decreases n - i,
    {
        match &elems[i] {
            Json::Str(s) => out.push(s.clone()),
            _ => { return None },
        }
        i = i + 1;
    }
    proof {
        assert forall|k: int| 0 <= k < n implies out.deep_view()[k] == spec_strings_of(elems@)[k] by {
            assert(out.deep_view()[k] == out@[k]@);
        }
        assert(out.deep_view() =~= spec_strings_of(elems@));
    }
    Some(out)
}

/// An optional URL-list field is in order when it is absent, `null`, or an
/// array of well-shaped URLs.
pub open spec fn opt_urls_ok(j: Json, key: Seq<char>) -> bool {
    match j.spec_get(key) {
        None => true,
        Some(Json::Null) => true,
        Some(Json::Arr(elems)) => urls_shape_ok(elems@),
        Some(_) => false,
    }
}

/// The value of an optional URL-list field.
pub open spec fn spec_opt_urls(j: Json, key: Seq<char>) -> Option<Seq<UrlView>> {
    match j.spec_get(key) {
        Some(Json::Arr(elems)) => Some(spec_urls_of(elems@)),
        _ => None,
    }
}

/// Reads an optional URL-list field; the outer `None` reports a rejected
/// value.
fn opt_urls(j: &Json, key: &str) -> (r: Option<Option<Vec<Url>>>)
    ensures
        r is Some <==> opt_urls_ok(*j, key@),
        r matches Some(v) ==> v.deep_view() == spec_opt_urls(*j, key@),
{
    match j.get(key) {
        None => Some(None),
        Some(Json::Null) => Some(None),
        Some(Json::Arr(elems)) => match parse_urls(elems) {
            Some(v) => Some(Some(v)),
            None => None,
        },
        Some(_) => None,
    }
}

/// An optional field-list field is in order when it is absent, `null`, or an
/// array of well-shaped fields.
pub open spec fn opt_fields_ok(j: Json, key: Seq<char>) -> bool {
    match j.spec_get(key) {
        None => true,
        Some(Json::Null) => true,
        Some(Json::Arr(elems)) => fields_shape_ok(elems@),
        Some(_) => false,
    }
}

/// The value of an optional field-list field.
pub open spec fn spec_opt_fields(j: Json, key: Seq<char>) -> Option<Seq<FieldView>> {
    match j.spec_get(key) {
        Some(Json::Arr(elems)) => Some(spec_fields_of(elems@)),
        _ => None,
    }
}

/// Reads an optional field-list field; the outer `None` reports a rejected
/// value.
fn opt_fields(j: &Json, key: &str) -> (r: Option<Option<Vec<Field>>>)
    ensures
        r is Some <==> opt_fields_ok(*j, key@),
        r matches Some(v) ==> v.deep_view() == spec_opt_fields(*j, key@),
{
    match j.get(key) {
        None => Some(None),
        Some(Json::Null) => Some(None),
        Some(Json::Arr(elems)) => match parse_fields(elems) {
            Some(v) => Some(Some(v)),
            None => None,
        },
        Some(_) => None,
    }
}

/// An optional string-list field is in order when it is absent, `null`, or
/// an array of strings.
pub open spec fn opt_strings_ok(j: Json, key: Seq<char>) -> bool {
    match j.spec_get(key) {
        None => true,
        Some(Json::Null) => true,
        Some(Json::Arr(elems)) => strings_shape_ok(elems@),
        Some(_) => false,
    }
}

/// The value of an optional string-list field.
pub open spec fn spec_opt_strings(j: Json, key: Seq<char>) -> Option<Seq<Seq<char>>> {
    match j.spec_get(key) {
        Some(Json::Arr(elems)) => Some(spec_strings_of(elems@)),
        _ => None,
    }
}

/// Reads an optional string-list field; the outer `None` reports a rejected
/// value.
fn opt_strings(j: &Json, key: &str) -> (r: Option<Option<Vec<String>>>)
    ensures
        r is Some <==> opt_strings_ok(*j, key@),
        r matches Some(v) ==> v.deep_view() == spec_opt_strings(*j, key@),
{
    match j.get(key) {
        None => Some(None),
        Some(Json::Null) => Some(None),
        Some(Json::Arr(elems)) => match parse_strings(elems) {
            Some(v) => Some(Some(v)),
            None => None,
        },
        Some(_) => None,
    }
}

/// A JSON value maps to a `User` when every required attribute is a string
/// and the optional account type, where present, is one.
pub open spec fn user_shape_ok(j: Json) -> bool {
    &&& spec_req_str(j, "id"@) is Some
    &&& spec_req_str(j, "name"@) is Some
    &&& spec_req_str(j, "email"@) is Some
    &&& opt_str_ok(j, "user_type"@)
    &&& spec_req_str(j, "state"@) is Some
    &&& spec_req_str(j, "created_at"@) is Some
    &&& spec_req_str(j, "updated_at"@) is Some
    &&& spec_req_str(j, "last_auth_at"@) is Some
}

/// The `User` a well-shaped JSON value maps to.
pub open spec fn spec_user_of(j: Json) -> UserView
    recommends
        user_shape_ok(j),
{
    UserView {
        id: spec_req_str(j, "id"@)->Some_0,
        name: spec_req_str(j, "name"@)->Some_0,
        email: spec_req_str(j, "email"@)->Some_0,
        user_type: spec_opt_str(j, "user_type"@),
        state: spec_req_str(j, "state"@)->Some_0,
        created_at: spec_req_str(j, "created_at"@)->Some_0,
        updated_at: spec_req_str(j, "updated_at"@)->Some_0,
        last_auth_at: spec_req_str(j, "last_auth_at"@)->Some_0,
    }
}

/// Maps a JSON value to a `User`; `None` exactly on the shapes
/// `user_shape_ok` rejects.
pub fn parse_user(j: &Json) -> (r: Option<User>)
    ensures
        r is Some <==> user_shape_ok(*j),
        r matches Some(v) ==> v@ == spec_user_of(*j),
{
    let id = match req_str(j, "id") {
        Some(s) => s,
        None => { return None },
    };
    let name = match req_str(j, "name") {
        Some(s) => s,
        None => { return None },
    };
    let email = match req_str(j, "email") {
        Some(s) => s,
        None => { return None },
    };
    let user_type = match opt_str(j, "user_type") {
        Some(v) => v,
        None => { return None },
    };
    let state = match req_str(j, "state") {
        Some(s) => s,
        None => { return None },
    };
    let created_at = match req_str(j, "created_at") {
        Some(s) => s,
        None => { return None },
    };
    let updated_at = match req_str(j, "updated_at") {
        Some(s) => s,
        None => { return None },
    };
    let last_auth_at = match req_str(j, "last_auth_at") {
        Some(s) => s,
        None => { return None },
    };
    Some(User { id, name, email, user_type, state, created_at, updated_at, last_auth_at })
}

/// A JSON value maps to a `VaultItem` when its required attributes are
/// present with the right types — including a well-shaped embedded vault
/// summary — and its optional attributes, where present, have the right
/// types.
pub open spec fn item_shape_ok(j: Json) -> bool {
    &&& spec_req_str(j, "id"@) is Some
    &&& spec_req_str(j, "title"@) is Some
    &&& req_u32_ok(j, "version"@)
    &&& j.spec_get("vault"@) matches Some(v) && vault_shape_ok(v)
    &&& spec_req_str(j, "category"@) is Some
    &&& spec_req_str(j, "last_edited_by"@) is Some
    &&& spec_req_str(j, "created_at"@) is Some
    &&& spec_req_str(j, "updated_at"@) is Some
    &&& opt_str_ok(j, "additional_information"@)
    &&& opt_urls_ok(j, "urls"@)
    &&& opt_fields_ok(j, "fields"@)
}

/// The `VaultItem` a well-shaped JSON value maps to.
pub open spec fn spec_item_of(j: Json) -> VaultItemView
    recommends
        item_shape_ok(j),
{
    VaultItemView {
        id: spec_req_str(j, "id"@)->Some_0,
        title: spec_req_str(j, "title"@)->Some_0,
        version: spec_req_u32(j, "version"@),
        vault: spec_vault_of(j.spec_get("vault"@)->Some_0),
        category: spec_req_str(j, "category"@)->Some_0,
        last_edited_by: spec_req_str(j, "last_edited_by"@)->Some_0,
        created_at: spec_req_str(j, "created_at"@)->Some_0,
        updated_at: spec_req_str(j, "updated_at"@)->Some_0,
        additional_information: spec_opt_str(j, "additional_information"@),
        urls: spec_opt_urls(j, "urls"@),
        fields: spec_opt_fields(j, "fields"@),
    }
}

/// Maps a JSON value to a `VaultItem`; `None` exactly on the shapes
/// `item_shape_ok` rejects.
pub fn parse_item(j: &Json) -> (r: Option<VaultItem>)
    ensures
        r is Some <==> item_shape_ok(*j),
        r matches Some(v) ==> v@ == spec_item_of(*j),
{
    let id = match req_str(j, "id") {
        Some(s) => s,
        None => { return None },
    };
    let title = match req_str(j, "title") {
        Some(s) => s,
        None => { return None },
    };
    let version = match req_u32(j, "version") {
        Some(v) => v,
        None => { return None },
    };
    let vault = match j.get("vault") {
        Some(vj) => match parse_vault(vj) {
            Some(v) => v,
            None => { return None },
        },
        None => { return None },
    };
    let category = match req_str(j, "category") {
        Some(s) => s,
        None => { return None },
    };
    let last_edited_by = match req_str(j, "last_edited_by") {
        Some(s) => s,
        None => { return None },
    };
    let created_at = match req_str(j, "created_at") {
        Some(s) => s,
        None => { return None },
    };
    let updated_at = match req_str(j, "updated_at") {
        Some(s) => s,
        None => { return None },
    };
    let additional_information = match opt_str(j, "additional_information") {
        Some(v) => v,
        None => { return None },
    };
    let urls = match opt_urls(j, "urls") {
        Some(v) => v,
        None => { return None },
    };
    let fields = match opt_fields(j, "fields") {
        Some(v) => v,
        None => { return None },
    };
    Some(
        VaultItem {
            id,
            title,
            version,
            vault,
            category,
            last_edited_by,
            created_at,
            updated_at,
            additional_information,
            urls,
            fields,
        },
    )
}

/// A JSON value maps to an `OPVault` when its identifier and name are
/// strings and its optional attributes, where present, have the right types.
pub open spec fn op_vault_shape_ok(j: Json) -> bool {
    &&& spec_req_str(j, "id"@) is Some
    &&& spec_req_str(j, "name"@) is Some
    &&& opt_str_ok(j, "content_version"@)
    &&& opt_str_ok(j, "attribute_version"@)
    &&& opt_strings_ok(j, "items"@)
    &&& opt_str_ok(j, "vault_type"@)
    &&& opt_str_ok(j, "created_at"@)
    &&& opt_str_ok(j, "updated_at"@)
}

/// The `OPVault` a well-shaped JSON value maps to.
pub open spec fn spec_op_vault_of(j: Json) -> OPVaultView
    recommends
        op_vault_shape_ok(j),
{
    OPVaultView {
        id: spec_req_str(j, "id"@)->Some_0,
        name: spec_req_str(j, "name"@)->Some_0,
        content_version: spec_opt_str(j, "content_version"@),
        attribute_version: spec_opt_str(j, "attribute_version"@),
        items: spec_opt_strings(j, "items"@),
        vault_type: spec_opt_str(j, "vault_type"@),
        created_at: spec_opt_str(j, "created_at"@),
        updated_at: spec_opt_str(j, "updated_at"@),
    }
}

/// Maps a JSON value to an `OPVault`; `None` exactly on the shapes
/// `op_vault_shape_ok` rejects.
pub fn parse_op_vault(j: &Json) -> (r: Option<OPVault>)
    ensures
        r is Some <==> op_vault_shape_ok(*j),
        r matches Some(v) ==> v@ == spec_op_vault_of(*j),
{
    let id = match req_str(j, "id") {
        Some(s) => s,
        None => { return None },
    };
    let name = match req_str(j, "name") {
        Some(s) => s,
        None => { return None },
    };
    let content_version = match opt_str(j, "content_version") {
        Some(v) => v,
        None => { return None },
    };
    let attribute_version = match opt_str(j, "attribute_version") {
        Some(v) => v,
        None => { return None },
    };
    let items = match opt_strings(j, "items") {
        Some(v) => v,
        None => { return None },
    };
    let vault_type = match opt_str(j, "vault_type") {
        Some(v) => v,
        None => { return None },
    };
    let created_at = match opt_str(j, "created_at") {
        Some(v) => v,
        None => { return None },
    };
    let updated_at = match opt_str(j, "updated_at") {
        Some(v) => v,
        None => { return None },
    };
    Some(
        OPVault {
            id,
            name,
            content_version,
            attribute_version,
            items,
            vault_type,
            created_at,
            updated_at,
        },
    )
}

/// Every element of the sequence maps to a `VaultItem`.
pub open spec fn items_shape_ok(elems: Seq<Json>) -> bool {
    forall|i: int| 0 <= i < elems.len() ==> item_shape_ok(#[trigger] elems[i])
}

/// The `VaultItem`s a well-shaped sequence maps to, in order.
pub open spec fn spec_items_of(elems: Seq<Json>) -> Seq<VaultItemView> {
    Seq::new(elems.len(), |i: int| spec_item_of(elems[i]))
}

/// Maps a JSON array to `VaultItem`s, keeping the order in which the
/// external tool emitted them; `None` exactly when some element is rejected.
pub fn parse_items(elems: &Vec<Json>) -> (r: Option<Vec<VaultItem>>)
    ensures
        r is Some <==> items_shape_ok(elems@),
        r matches Some(v) ==> v.deep_view() == spec_items_of(elems@),
{
    let n = elems.len();
    let mut out: Vec<VaultItem> = Vec::new();
    let mut i: usize = 0;
    while i < n
        invariant
            i <= n,
            n == elems@.len(),
            out@.len() == i,
            forall|k: int| 0 <= k < i ==> item_shape_ok(#[trigger] elems@[k]),
            forall|k: int| 0 <= k < i ==> (#[trigger] out@[k])@ == spec_item_of(elems@[k]),
        decreases n - i,
    {
        match parse_item(&elems[i]) {
            Some(item) => out.push(item),
            None => { return None },
        }
        i = i + 1;
    }
    proof {
        assert forall|k: int| 0 <= k < n implies out.deep_view()[k] == spec_items_of(elems@)[k] by {
            assert(out.deep_view()[k] == out@[k]@);
        }
        assert(out.deep_view() =~= spec_items_of(elems@));
    }
    Some(out)
}

/// Every element of the sequence maps to an `OPVault`.
pub open spec fn op_vaults_shape_ok(elems: Seq<Json>) -> bool {
    forall|i: int| 0 <= i < elems.len() ==> op_vault_shape_ok(#[trigger] elems[i])
}

/// The `OPVault`s a well-shaped sequence maps to, in order.
pub open spec fn spec_op_vaults_of(elems: Seq<Json>) -> Seq<OPVaultView> {
    Seq::new(elems.len(), |i: int| spec_op_vault_of(elems[i]))
}

/// Maps a JSON array to `OPVault`s, keeping the emitted order; `None`
/// exactly when some element is rejected.
pub fn parse_op_vaults(elems: &Vec<Json>) -> (r: Option<Vec<OPVault>>)
    ensures
        r is Some <==> op_vaults_shape_ok(elems@),
        r matches Some(v) ==> v.deep_view() == spec_op_vaults_of(elems@),
{
    let n = elems.len();
    let mut out: Vec<OPVault> = Vec::new();
    let mut i: usize = 0;
    while i < n
        invariant
            i <= n,
            n == elems@.len(),
            out@.len() == i,
            forall|k: int| 0 <= k < i ==> op_vault_shape_ok(#[trigger] elems@[k]),
            forall|k: int| 0 <= k < i ==> (#[trigger] out@[k])@ == spec_op_vault_of(elems@[k]),
        decreases n - i,
    {
        match parse_op_vault(&elems[i]) {
            Some(v) => out.push(v),
            None => { return None },
        }
        i = i + 1;
    }
    proof {
        assert forall|k: int| 0 <= k < n implies out.deep_view()[k] == spec_op_vaults_of(
            elems@,
        )[k] by {
            assert(out.deep_view()[k] == out@[k]@);
        }
        assert(out.deep_view() =~= spec_op_vaults_of(elems@));
    }
    Some(out)
}

} // verus!
