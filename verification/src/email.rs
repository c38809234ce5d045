//! The mail that carries an activation link.

use vstd::prelude::*;
use vstd::string::StringExecFns;

verus! {

/// The mail could not be sent.
#[derive(Debug, PartialEq, Eq, Structural)]
pub struct SendError;

/// What every activation link starts with; the percent-encoded token follows.
pub open spec fn link_prefix() -> Seq<char> {
    "https://tentech.me/validate?token="@
}

/// The subject of every activation mail.
pub open spec fn mail_subject() -> Seq<char> {
    "Hi, access to this link to activate your account."@
}

/// A mail to be sent: to whom, and what it says.
#[derive(Debug)]
pub struct ActivationMail {
    pub to_email: String,
    pub to_name: String,
    pub subject: String,
    pub text: String,
}

/// The activation mail for the account of `email`, whose text is the link
/// that ends in `encoded_token`.
pub fn activation_mail(email: &String, nickname: &String, encoded_token: &String) -> (mail:
    ActivationMail)
    ensures
        mail.to_email@ == email@,
        mail.to_name@ == nickname@,
        mail.subject@ == mail_subject(),
        mail.text@ == link_prefix() + encoded_token@,
{
    let mut text = "https://tentech.me/validate?token=".to_owned();
    text.append(encoded_token.as_str());
    ActivationMail {
        to_email: email.clone(),
        to_name: nickname.clone(),
        subject: "Hi, access to this link to activate your account.".to_owned(),
        text,
    }
}

} // verus!
