//! Mail delivery: how a message and its SMTP connection are set up.
use vstd::prelude::*;

use crate::url_parts::opt_seq;

verus! {

/// The SMTP settings of the instance.
pub struct Smtp {
    pub host: String,
    pub username: Option<String>,
    pub password: Option<String>,
    pub port: u16,
    pub from: String,
    pub tls_implicit: Option<bool>,
    pub disable_tls: Option<bool>,
}

/// The body of a message.
pub enum EmailBody {
    Html(String),
    Text(String),
}

/// One message and the connection to send it over.
pub struct SmtpDelivery {
    pub from: String,
    pub to: Vec<String>,
    pub subject: String,
    pub body: EmailBody,
    pub host: String,
    pub port: u16,
    /// TLS from the first byte, rather than after `STARTTLS`.
    pub implicit_tls: bool,
    /// The user name and password to log in with.
    pub credentials: Option<(String, String)>,
    /// Connect without TLS at all.
    pub plain: bool,
}

/// How a message goes out: nothing is sent when there is no recipient; otherwise the
/// message comes from the configured sender, TLS is implicit or disabled only when
/// the settings say so, and credentials are given when a user name is set (with an
/// empty password when none is).
pub fn email_delivery(subject: &str, body: EmailBody, to: Vec<String>, smtp: Smtp) -> (r: Option<
    SmtpDelivery,
>)
    ensures
        to@.len() == 0 <==> r is None,
        r matches Some(d) ==> {
            &&& d.from == smtp.from
            &&& d.to == to
            &&& d.subject@ == subject@
            &&& d.body == body
            &&& d.host == smtp.host
            &&& d.port == smtp.port
            &&& d.implicit_tls == (smtp.tls_implicit == Some(true))
            &&& d.plain == (smtp.disable_tls == Some(true))
            &&& match smtp.username {
                Some(u) => d.credentials matches Some((cu, cp)) && cu == u && cp@ == match opt_seq(
                    smtp.password,
                ) {
                    Some(p) => p,
                    None => Seq::<char>::empty(),
                },
                None => d.credentials is None,
            }
        },
{
    if to.len() == 0 {
        return None;
    }
    let implicit_tls = match smtp.tls_implicit {
        Some(b) => b,
        None => false,
    };
    let plain = match smtp.disable_tls {
        Some(b) => b,
        None => false,
    };
    let credentials = match smtp.username {
        Some(u) => {
            let p = match smtp.password {
                Some(p) => p,
                None => String::new(),
            };
            Some((u, p))
        },
        None => None,
    };
    Some(
        SmtpDelivery {
            from: smtp.from,
            to,
            subject: String::from_str(subject),
            body,
            host: smtp.host,
            port: smtp.port,
            implicit_tls,
            credentials,
            plain,
        },
    )
}

} // verus!
