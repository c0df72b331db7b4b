//! Application Default Credentials: where the file is and what its fields make.
use vstd::prelude::*;
use crate::text::{owned, push_str, str_eq};

verus! {

/// The fields of an Application Default Credentials file, as read from its JSON.
pub struct RawCredentials {
    /// The `type` field.
    pub credential_type: String,
    pub client_id: Option<String>,
    pub client_secret: Option<String>,
    pub refresh_token: Option<String>,
    pub client_email: Option<String>,
    pub private_key: Option<String>,
    pub private_key_id: Option<String>,
    pub token_uri: Option<String>,
}

/// Credentials that can produce a token request.
pub enum Adc {
    /// A user's OAuth2 refresh token.
    AuthorizedUser { client_id: String, client_secret: String, refresh_token: String },
    /// A service account key.
    ServiceAccount {
        client_email: String,
        private_key: String,
        private_key_id: String,
        token_uri: String,
    },
}

/// The contents of an `Adc`.
pub enum AdcView {
    AuthorizedUser { client_id: Seq<char>, client_secret: Seq<char>, refresh_token: Seq<char> },
    ServiceAccount {
        client_email: Seq<char>,
        private_key: Seq<char>,
        private_key_id: Seq<char>,
        token_uri: Seq<char>,
    },
}

impl View for Adc {
    type V = AdcView;

    open spec fn view(&self) -> AdcView {
        match self {
            Adc::AuthorizedUser { client_id, client_secret, refresh_token } => AdcView::AuthorizedUser {
                client_id: client_id@,
                client_secret: client_secret@,
                refresh_token: refresh_token@,
            },
            Adc::ServiceAccount { client_email, private_key, private_key_id, token_uri } =>
                AdcView::ServiceAccount {
                client_email: client_email@,
                private_key: private_key@,
                private_key_id: private_key_id@,
                token_uri: token_uri@,
            },
        }
    }
}

/// The token endpoint a service account uses when its file names none.
pub open spec fn default_token_uri() -> Seq<char> {
    "https://oauth2.googleapis.com/token"@
}

/// The message for a required field that is absent.
pub open spec fn missing_field(name: Seq<char>) -> Seq<char> {
    "missing field `"@ + name + "`"@
}

/// The view of an optional string.
pub open spec fn opt_view(o: Option<String>) -> Option<Seq<char>> {
    match o {
        Some(s) => Some(s@),
        None => None,
    }
}

/// What the fields of a credentials file make: an `authorized_user` needs a client id, a
/// client secret and a refresh token; a `service_account` needs a client email, a private key
/// and its id, and takes the default token endpoint when none is named; any other type is
/// refused. The first absent field, in that order, is the one reported.
pub open spec fn adc_from_raw_spec(raw: RawCredentials) -> Result<AdcView, Seq<char>> {
    if raw.credential_type@ == "authorized_user"@ {
        if raw.client_id is None {
            Err(missing_field("client_id"@))
        } else if raw.client_secret is None {
            Err(missing_field("client_secret"@))
        } else if raw.refresh_token is None {
            Err(missing_field("refresh_token"@))
        } else {
            Ok(AdcView::AuthorizedUser {
                client_id: raw.client_id->0@,
                client_secret: raw.client_secret->0@,
                refresh_token: raw.refresh_token->0@,
            })
        }
    } else if raw.credential_type@ == "service_account"@ {
        if raw.client_email is None {
            Err(missing_field("client_email"@))
        } else if raw.private_key is None {
            Err(missing_field("private_key"@))
        } else if raw.private_key_id is None {
            Err(missing_field("private_key_id"@))
        } else {
            Ok(AdcView::ServiceAccount {
                client_email: raw.client_email->0@,
                private_key: raw.private_key->0@,
                private_key_id: raw.private_key_id->0@,
                token_uri: match raw.token_uri {
                    Some(u) => u@,
                    None => default_token_uri(),
                },
            })
        }
    } else {
        Err("unsupported credential type: "@ + raw.credential_type@)
    }
}

fn missing(name: &str) -> (res: String)
    ensures
        res@ == missing_field(name@),
{
    let mut s = owned("missing field `");
    push_str(&mut s, name);
    push_str(&mut s, "`");
    s
}

impl Adc {
    /// The credentials that the fields of a credentials file make, or why they make none.
    pub fn from_raw(raw: RawCredentials) -> (res: Result<Adc, String>)
        ensures
            match res {
                Ok(a) => adc_from_raw_spec(raw) == Ok::<AdcView, Seq<char>>(a@),
                Err(e) => adc_from_raw_spec(raw) == Err::<AdcView, Seq<char>>(e@),
            },
    {
        let ghost g = raw;
        if str_eq(raw.credential_type.as_str(), "authorized_user") {
            let client_id = match raw.client_id {
                Some(v) => v,
                None => return Err(missing("client_id")),
            };
            let client_secret = match raw.client_secret {
                Some(v) => v,
                None => return Err(missing("client_secret")),
            };
            let refresh_token = match raw.refresh_token {
                Some(v) => v,
                None => return Err(missing("refresh_token")),
            };
            Ok(Adc::AuthorizedUser { client_id, client_secret, refresh_token })
        } else if str_eq(raw.credential_type.as_str(), "service_account") {
            let client_email = match raw.client_email {
                Some(v) => v,
                None => return Err(missing("client_email")),
            };
            let private_key = match raw.private_key {
                Some(v) => v,
                None => return Err(missing("private_key")),
            };
            let private_key_id = match raw.private_key_id {
                Some(v) => v,
                None => return Err(missing("private_key_id")),
            };
            let token_uri = match raw.token_uri {
                Some(v) => v,
                None => owned("https://oauth2.googleapis.com/token"),
            };
            Ok(Adc::ServiceAccount { client_email, private_key, private_key_id, token_uri })
        } else {
            let mut s = owned("unsupported credential type: ");
            push_str(&mut s, raw.credential_type.as_str());
            Err(s)
        }
    }
}

/// Where the credentials file is: the path that `GOOGLE_APPLICATION_CREDENTIALS` names, else
/// the gcloud default under the home directory.
pub open spec fn adc_path_spec(explicit: Option<Seq<char>>, home: Option<Seq<char>>) -> Seq<char> {
    match explicit {
        Some(p) => p,
        None => home->0 + "/.config/gcloud/application_default_credentials.json"@,
    }
}

/// Where the credentials file is, given the values of `GOOGLE_APPLICATION_CREDENTIALS` and
/// `HOME` (each absent when unset). Without the first, the home directory must be known.
pub fn adc_path(explicit: Option<String>, home: Option<String>) -> (res: String)
    requires
        explicit is Some || home is Some,
    ensures
        res@ == adc_path_spec(opt_view(explicit), opt_view(home)),
{
    match explicit {
        Some(p) => p,
        None => {
            let mut s = match home {
                Some(h) => h,
                None => String::new(),
            };
            push_str(&mut s, "/.config/gcloud/application_default_credentials.json");
            s
        },
    }
}

} // verus!
