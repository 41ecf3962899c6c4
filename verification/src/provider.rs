//! The provider registry: which login page, which token-bearing calls and
//! which polling endpoint a provider key stands for.

use vstd::prelude::*;
use vstd::string::StringExecFns;
use crate::text::{opt_view, same_text};

verus! {

/// What the login flow needs to know of one identity provider.
#[derive(Debug)]
pub struct ProviderDescriptor {
    pub key: String,
    pub login_url: String,
    pub auth_match_pattern: String,
    pub poll_url: String,
    pub title: String,
}

/// A descriptor as plain text values.
pub ghost struct DescriptorModel {
    pub key: Seq<char>,
    pub login_url: Seq<char>,
    pub auth_match_pattern: Seq<char>,
    pub poll_url: Seq<char>,
    pub title: Seq<char>,
}

impl View for ProviderDescriptor {
    type V = DescriptorModel;

    open spec fn view(&self) -> DescriptorModel {
        DescriptorModel {
            key: self.key@,
            login_url: self.login_url@,
            auth_match_pattern: self.auth_match_pattern@,
            poll_url: self.poll_url@,
            title: self.title@,
        }
    }
}

/// The key of the provider that stands in for a missing or unknown key.
pub open spec fn default_key() -> Seq<char> {
    "hypergryph"@
}

/// The key of the international provider.
pub open spec fn international_key() -> Seq<char> {
    "gryphline"@
}

/// The default provider.
pub open spec fn canonical() -> DescriptorModel {
    DescriptorModel {
        key: default_key(),
        login_url: "https://user.hypergryph.com/"@,
        auth_match_pattern: "as.hypergryph.com/user/auth"@,
        poll_url: "https://web-api.hypergryph.com/account/info/hg"@,
        title: "登录鹰角通行证"@,
    }
}

/// The international provider.
pub open spec fn international() -> DescriptorModel {
    DescriptorModel {
        key: international_key(),
        login_url: "https://user.gryphline.com/"@,
        auth_match_pattern: "as.gryphline.com/user/auth"@,
        poll_url: "https://web-api.gryphline.com/cookie_store/account_token"@,
        title: "登录鹰角通行证（国际服）"@,
    }
}

/// Is `key` one of the registry's keys?
pub open spec fn in_registry(key: Seq<char>) -> bool {
    key == default_key() || key == international_key()
}

/// The descriptor that a request with this key is served with: the entry of
/// the key where the registry has one, the default provider otherwise.
pub open spec fn descriptor_of(key: Option<Seq<char>>) -> DescriptorModel {
    match key {
        Some(k) => if k == international_key() {
            international()
        } else {
            canonical()
        },
        None => canonical(),
    }
}

/// Looks a provider up. A missing key and a key that the registry does not
/// hold both give the default provider.
pub fn lookup(key: Option<&str>) -> (d: ProviderDescriptor)
    ensures
        d@ == descriptor_of(opt_view(key)),
{
    let international: bool = match key {
        Some(k) => same_text(k, "gryphline"),
        None => false,
    };
    if international {
        ProviderDescriptor {
            key: String::from_str("gryphline"),
            login_url: String::from_str("https://user.gryphline.com/"),
            auth_match_pattern: String::from_str("as.gryphline.com/user/auth"),
            poll_url: String::from_str("https://web-api.gryphline.com/cookie_store/account_token"),
            title: String::from_str("登录鹰角通行证（国际服）"),
        }
    } else {
        ProviderDescriptor {
            key: String::from_str("hypergryph"),
            login_url: String::from_str("https://user.hypergryph.com/"),
            auth_match_pattern: String::from_str("as.hypergryph.com/user/auth"),
            poll_url: String::from_str("https://web-api.hypergryph.com/account/info/hg"),
            title: String::from_str("登录鹰角通行证"),
        }
    }
}

/// Every key outside the registry is served exactly as a missing key is:
/// with the default provider.
pub proof fn law_unknown_key_is_default(key: Seq<char>)
    requires
        !in_registry(key),
    ensures
        descriptor_of(Some(key)) == descriptor_of(None),
        descriptor_of(Some(key)) == descriptor_of(Some(default_key())),
{
    lemma_keys_differ();
}

/// The two keys of the registry are different texts.
pub proof fn lemma_keys_differ()
    ensures
        default_key() != international_key(),
{
    reveal_strlit("hypergryph");
    reveal_strlit("gryphline");
    assert(default_key().len() == 10);
    assert(international_key().len() == 9);
}

} // verus!
