//! The typed records the operations return, with their mathematical views.
//!
//! Every record is built freshly from one JSON response and never mutated;
//! optional fields model genuine absence in the external system.

use vstd::prelude::*;

verus! {

/// The vault summary embedded in an item: identifier and name.
#[derive(Debug)]
pub struct Vault {
    pub id: String,
    pub name: String,
}

/// Mathematical view of a `Vault`.
pub struct VaultView {
    pub id: Seq<char>,
    pub name: Seq<char>,
}

impl View for Vault {
    type V = VaultView;

    open spec fn view(&self) -> VaultView {
        VaultView { id: self.id@, name: self.name@ }
    }
}

impl DeepView for Vault {
    type V = VaultView;

    open spec fn deep_view(&self) -> VaultView {
        self.view()
    }
}

/// One typed attribute of an item.
#[derive(Debug)]
pub struct Field {
    pub id: String,
    pub field_type: String,
    pub purpose: Option<String>,
    pub label: Option<String>,
    pub value: Option<String>,
    pub reference: Option<String>,
}

/// Mathematical view of a `Field`.
pub struct FieldView {
    pub id: Seq<char>,
    pub field_type: Seq<char>,
    pub purpose: Option<Seq<char>>,
    pub label: Option<Seq<char>>,
    pub value: Option<Seq<char>>,
    pub reference: Option<Seq<char>>,
}

impl View for Field {
    type V = FieldView;

    open spec fn view(&self) -> FieldView {
        FieldView {
            id: self.id@,
            field_type: self.field_type@,
            purpose: self.purpose.deep_view(),
            label: self.label.deep_view(),
            value: self.value.deep_view(),
            reference: self.reference.deep_view(),
        }
    }
}

impl DeepView for Field {
    type V = FieldView;

    open spec fn deep_view(&self) -> FieldView {
        self.view()
    }
}

/// One URL attached to an item.
#[derive(Debug)]
pub struct Url {
    pub label: Option<String>,
    pub primary: Option<bool>,
    pub href: String,
}

/// Mathematical view of a `Url`.
pub struct UrlView {
    pub label: Option<Seq<char>>,
    pub primary: Option<bool>,
    pub href: Seq<char>,
}

impl View for Url {
    type V = UrlView;

    open spec fn view(&self) -> UrlView {
        UrlView { label: self.label.deep_view(), primary: self.primary, href: self.href@ }
    }
}

impl DeepView for Url {
    type V = UrlView;

    open spec fn deep_view(&self) -> UrlView {
        self.view()
    }
}

/// One credential record of a vault.
#[derive(Debug)]
pub struct VaultItem {
    pub id: String,
    pub title: String,
    pub version: u32,
    pub vault: Vault,
    pub category: String,
    pub last_edited_by: String,
    pub created_at: String,
    pub updated_at: String,
    pub additional_information: Option<String>,
    pub urls: Option<Vec<Url>>,
    pub fields: Option<Vec<Field>>,
}

/// Mathematical view of a `VaultItem`.
pub struct VaultItemView {
    pub id: Seq<char>,
    pub title: Seq<char>,
    pub version: u32,
    pub vault: VaultView,
    pub category: Seq<char>,
    pub last_edited_by: Seq<char>,
    pub created_at: Seq<char>,
    pub updated_at: Seq<char>,
    pub additional_information: Option<Seq<char>>,
    pub urls: Option<Seq<UrlView>>,
    pub fields: Option<Seq<FieldView>>,
}

impl View for VaultItem {
    type V = VaultItemView;

    open spec fn view(&self) -> VaultItemView {
        VaultItemView {
            id: self.id@,
            title: self.title@,
            version: self.version,
            vault: self.vault@,
            category: self.category@,
            last_edited_by: self.last_edited_by@,
            created_at: self.created_at@,
            updated_at: self.updated_at@,
            additional_information: self.additional_information.deep_view(),
            urls: self.urls.deep_view(),
            fields: self.fields.deep_view(),
        }
    }
}

impl DeepView for VaultItem {
    type V = VaultItemView;

    open spec fn deep_view(&self) -> VaultItemView {
        self.view()
    }
}

/// The current user of the service account.
#[derive(Debug)]
pub struct User {
    pub id: String,
    pub name: String,
    pub email: String,
    pub user_type: Option<String>,
    pub state: String,
    pub created_at: String,
    pub updated_at: String,
    pub last_auth_at: String,
}

/// Mathematical view of a `User`.
pub struct UserView {
    pub id: Seq<char>,
    pub name: Seq<char>,
    pub email: Seq<char>,
    pub user_type: Option<Seq<char>>,
    pub state: Seq<char>,
    pub created_at: Seq<char>,
    pub updated_at: Seq<char>,
    pub last_auth_at: Seq<char>,
}

impl View for User {
    type V = UserView;

    open spec fn view(&self) -> UserView {
        UserView {
            id: self.id@,
            name: self.name@,
            email: self.email@,
            user_type: self.user_type.deep_view(),
            state: self.state@,
            created_at: self.created_at@,
            updated_at: self.updated_at@,
            last_auth_at: self.last_auth_at@,
        }
    }
}

impl DeepView for User {
    type V = UserView;

    open spec fn deep_view(&self) -> UserView {
        self.view()
    }
}

/// Standalone vault metadata, as returned by the vault operations.
#[derive(Debug)]
pub struct OPVault {
    pub id: String,
    pub name: String,
    pub content_version: Option<String>,
    pub attribute_version: Option<String>,
    pub items: Option<Vec<String>>,
    pub vault_type: Option<String>,
    pub created_at: Option<String>,
    pub updated_at: Option<String>,
}

/// Mathematical view of an `OPVault`.
pub struct OPVaultView {
    pub id: Seq<char>,
    pub name: Seq<char>,
    pub content_version: Option<Seq<char>>,
    pub attribute_version: Option<Seq<char>>,
    pub items: Option<Seq<Seq<char>>>,
    pub vault_type: Option<Seq<char>>,
    pub created_at: Option<Seq<char>>,
    pub updated_at: Option<Seq<char>>,
}

impl View for OPVault {
    type V = OPVaultView;

    open spec fn view(&self) -> OPVaultView {
        OPVaultView {
            id: self.id@,
            name: self.name@,
            content_version: self.content_version.deep_view(),
            attribute_version: self.attribute_version.deep_view(),
            items: self.items.deep_view(),
            vault_type: self.vault_type.deep_view(),
            created_at: self.created_at.deep_view(),
            updated_at: self.updated_at.deep_view(),
        }
    }
}

impl DeepView for OPVault {
    type V = OPVaultView;

    open spec fn deep_view(&self) -> OPVaultView {
        self.view()
    }
}

impl OPVault {
    /// A vault record carrying only an identifier, a name and an optional
    /// content version; every other attribute is absent.
    pub fn new(id: String, name: String, content_version: Option<String>) -> (r: Self)
        ensures
            r.id == id,
            r.name == name,
            r.content_version == content_version,
            r.attribute_version is None,
            r.items is None,
            r.vault_type is None,
            r.created_at is None,
            r.updated_at is None,
    {
        Self {
            id,
            name,
            content_version,
            attribute_version: None,
            items: None,
            vault_type: None,
            created_at: None,
            updated_at: None,
        }
    }
}

/// A vault record built from the basic attributes alone; the remaining
/// attributes are absent.
pub fn create_basic_vault(id: String, name: String, content_version: Option<String>) -> (r:
    OPVault)
    ensures
        r.id == id,
        r.name == name,
        r.content_version == content_version,
        r.attribute_version is None,
        r.items is None,
        r.vault_type is None,
        r.created_at is None,
        r.updated_at is None,
{
    OPVault::new(id, name, content_version)
}

} // verus!
