//! Checking the credentials of a hosting account: which providers are
//! checked remotely, what keys an Aliyun check uses, and the offline check
//! used in development.

use crate::gui_model::{Credential, CredentialView, DnsProvider};
use crate::text::{owned, push_str, seq_contains, str_contains};
use vstd::prelude::*;

verus! {

/// What checking a provider's credentials comes to.
#[derive(Debug, Clone)]
pub enum CredentialCheck {
    /// Nothing to check remotely: the credentials are accepted.
    Accept,
    /// The credentials are refused with this message before any call.
    Reject(String),
    /// The Aliyun API of `region` is asked whether these keys are valid.
    VerifyAliyun { access_key_id: String, access_key_secret: String, region: String },
}

/// The region whose API an Aliyun credential check asks.
pub open spec fn aliyun_check_region() -> Seq<char> {
    "cn-hangzhou"@
}

/// The key id and secret an Aliyun check uses: key and secret as they are,
/// a token as the secret with no key id, a username and password as key id
/// and secret.
pub open spec fn aliyun_key_pair(c: CredentialView) -> (Seq<char>, Seq<char>) {
    match c {
        CredentialView::ApiKey(k, s) => (k, s),
        CredentialView::Token(t) => (Seq::empty(), t),
        CredentialView::UsernamePassword(u, p) => (u, p),
    }
}

/// The message for an Aliyun key pair with an empty part.
pub open spec fn empty_keys_message() -> Seq<char> {
    "Access Key ID 或 Access Key Secret 不能为空"@
}

/// The message a failed remote check is reported with.
pub open spec fn remote_failure_message(e: Seq<char>) -> Seq<char> {
    "凭证验证失败: "@ + e
}

/// What the offline check answers: credentials holding `test` anywhere
/// are refused first, then empty ones, and the rest are accepted.
pub open spec fn mock_outcome(c: CredentialView) -> Result<(), Seq<char>> {
    match c {
        CredentialView::ApiKey(k, s) => if seq_contains(k, "test"@) || seq_contains(s, "test"@) {
            Err("测试凭证验证失败"@)
        } else if k.len() == 0 || s.len() == 0 {
            Err("API Key 或 API Secret 不能为空"@)
        } else {
            Ok(())
        },
        CredentialView::Token(t) => if seq_contains(t, "test"@) {
            Err("测试token验证失败"@)
        } else if t.len() == 0 {
            Err("Token 不能为空"@)
        } else {
            Ok(())
        },
        CredentialView::UsernamePassword(u, p) => if seq_contains(u, "test"@) || seq_contains(
            p,
            "test"@,
        ) {
            Err("测试用户名密码验证失败"@)
        } else if u.len() == 0 || p.len() == 0 {
            Err("用户名或密码不能为空"@)
        } else {
            Ok(())
        },
    }
}

/// The view of an outcome with a text error.
pub open spec fn outcome_view(r: Result<(), String>) -> Result<(), Seq<char>> {
    match r {
        Ok(()) => Ok(()),
        Err(m) => Err(m@),
    }
}

/// Checks the credentials of hosting accounts.
pub struct CredentialService;

impl CredentialService {
    /// What checking `credential` for `provider` comes to: Aliyun keys are
    /// checked remotely (and refused at once when a part is empty); the
    /// other providers are accepted without a check.
    pub fn validate_credentials(provider: DnsProvider, credential: &Credential) -> (r: CredentialCheck)
        ensures
            provider != DnsProvider::Aliyun ==> r is Accept,
            provider == DnsProvider::Aliyun ==> {
                let (k, s) = aliyun_key_pair(credential@);
                &&& (k.len() == 0 || s.len() == 0) ==> (r matches CredentialCheck::Reject(m) && m@
                    == empty_keys_message())
                &&& (k.len() != 0 && s.len() != 0) ==> (r matches CredentialCheck::VerifyAliyun {
                    access_key_id,
                    access_key_secret,
                    region,
                } && access_key_id@ == k && access_key_secret@ == s && region@ == aliyun_check_region())
            },
    {
        match provider {
            DnsProvider::Aliyun => Self::validate_aliyun_credentials(credential),
            _ => CredentialCheck::Accept,
        }
    }

    fn validate_aliyun_credentials(credential: &Credential) -> (r: CredentialCheck)
        ensures
            ({
                let (k, s) = aliyun_key_pair(credential@);
                &&& (k.len() == 0 || s.len() == 0) ==> (r matches CredentialCheck::Reject(m) && m@
                    == empty_keys_message())
                &&& (k.len() != 0 && s.len() != 0) ==> (r matches CredentialCheck::VerifyAliyun {
                    access_key_id,
                    access_key_secret,
                    region,
                } && access_key_id@ == k && access_key_secret@ == s && region@ == aliyun_check_region())
            }),
    {
        let (access_key_id, access_key_secret) = Self::aliyun_keys(credential);
        if access_key_id.as_str().unicode_len() == 0 || access_key_secret.as_str().unicode_len() == 0 {
            return CredentialCheck::Reject(owned("Access Key ID 或 Access Key Secret 不能为空"));
        }
        CredentialCheck::VerifyAliyun { access_key_id, access_key_secret, region: owned("cn-hangzhou") }
    }

    /// The key id and secret an Aliyun check uses for `credential`.
    pub fn aliyun_keys(credential: &Credential) -> (r: (String, String))
        ensures
            (r.0@, r.1@) == aliyun_key_pair(credential@),
    {
        match credential {
            Credential::ApiKey(c) => (c.api_key.clone(), c.api_secret.clone()),
            Credential::Token(c) => (String::new(), c.token.clone()),
            Credential::UsernamePassword(c) => (c.username.clone(), c.password.clone()),
        }
    }

    /// The outcome of a remote Aliyun check, given what the API answered.
    pub fn finish_aliyun_check(answer: Result<(), String>) -> (r: Result<(), String>)
        ensures
            answer is Ok <==> r is Ok,
            answer matches Err(e) ==> (r matches Err(m) && m@ == remote_failure_message(e@)),
    {
        match answer {
            Ok(()) => Ok(()),
            Err(e) => {
                let mut m = owned("凭证验证失败: ");
                push_str(&mut m, e.as_str());
                Err(m)
            },
        }
    }

    /// The offline check used in development: credentials that contain
    /// `test` are refused, empty ones too, and the rest are accepted.
    pub fn validate_credentials_mock(_provider: DnsProvider, credential: &Credential) -> (r: Result<
        (),
        String,
    >)
        ensures
            outcome_view(r) == mock_outcome(credential@),
    {
        match credential {
            Credential::ApiKey(c) => {
                if str_contains(c.api_key.as_str(), "test") || str_contains(
                    c.api_secret.as_str(),
                    "test",
                ) {
                    Err(owned("测试凭证验证失败"))
                } else if c.api_key.as_str().unicode_len() == 0 || c.api_secret.as_str().unicode_len()
                    == 0 {
                    Err(owned("API Key 或 API Secret 不能为空"))
                } else {
                    Ok(())
                }
            },
            Credential::Token(c) => {
                if str_contains(c.token.as_str(), "test") {
                    Err(owned("测试token验证失败"))
                } else if c.token.as_str().unicode_len() == 0 {
                    Err(owned("Token 不能为空"))
                } else {
                    Ok(())
                }
            },
            Credential::UsernamePassword(c) => {
                if str_contains(c.username.as_str(), "test") || str_contains(
                    c.password.as_str(),
                    "test",
                ) {
                    Err(owned("测试用户名密码验证失败"))
                } else if c.username.as_str().unicode_len() == 0 || c.password.as_str().unicode_len()
                    == 0 {
                    Err(owned("用户名或密码不能为空"))
                } else {
                    Ok(())
                }
            },
        }
    }
}

} // verus!
