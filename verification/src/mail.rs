//! The verification e-mail: what is sent, how the mail service is
//! authorized, and how its answer is judged.

use vstd::prelude::*;

use crate::config::Config;
use crate::errors::AppError;

verus! {

/// The template endpoint of the transactional e-mail service.
pub const EMAIL_TEMPLATE_URL: &'static str = "https://api.zeptomail.com/v1.1/email/template";
/// The template of the verification e-mail.
pub const VERIFICATION_TEMPLATE: &'static str = "pinespot-email-verification-link-key-alias";
/// The sender's display name.
pub const SENDER_NAME: &'static str = "PineSpot Verification";
/// The sender's address.
pub const SENDER_ADDRESS: &'static str = "verification@kronk.uz";

/// The client of the e-mail service.
pub struct ZeptoMail {
    pub api_url: String,
}

/// A templated e-mail that carries a verification link to one recipient.
pub struct VerificationEmail {
    pub template_alias: String,
    pub from_name: String,
    pub from_address: String,
    pub to_name: String,
    pub to_address: String,
    pub verification_link: String,
}

/// The service answered with a success status (2xx).
pub open spec fn is_success(status: u16) -> bool {
    200 <= status <= 299
}

impl ZeptoMail {
    /// A client of the template endpoint.
    pub fn new() -> (res: ZeptoMail)
        ensures
            res.api_url@ == EMAIL_TEMPLATE_URL@,
    {
        ZeptoMail { api_url: String::from_str(EMAIL_TEMPLATE_URL) }
    }

    /// The same client as [`ZeptoMail::new`].
    pub fn default() -> (res: ZeptoMail)
        ensures
            res.api_url@ == EMAIL_TEMPLATE_URL@,
    {
        ZeptoMail::new()
    }

    /// The verification e-mail to a user: the verification template, from
    /// the verification sender, to the user's name and address, carrying
    /// the link.
    pub fn verification_email(&self, to_email: String, name: String, verification_link: String) -> (res: VerificationEmail)
        ensures
            res.template_alias@ == VERIFICATION_TEMPLATE@,
            res.from_name@ == SENDER_NAME@,
            res.from_address@ == SENDER_ADDRESS@,
            res.to_name@ == name@,
            res.to_address@ == to_email@,
            res.verification_link@ == verification_link@,
    {
        VerificationEmail {
            template_alias: String::from_str(VERIFICATION_TEMPLATE),
            from_name: String::from_str(SENDER_NAME),
            from_address: String::from_str(SENDER_ADDRESS),
            to_name: name,
            to_address: to_email,
            verification_link,
        }
    }

    /// The `authorization` header of a request to the service; refused when
    /// no key is configured.
    pub fn authorization(config: &Config) -> (res: Result<String, AppError>)
        ensures
            match config.email_service_api_key {
                Some(k) => res matches Ok(h) && h@ == "Zoho-enczapikey "@ + k@,
                None => res matches Err(e) && e is MissingEmailServiceApiKeyError,
            },
    {
        match &config.email_service_api_key {
            Some(k) => {
                let mut h = String::from_str("Zoho-enczapikey ");
                h.append(k.as_str());
                Ok(h)
            },
            None => Err(AppError::MissingEmailServiceApiKeyError),
        }
    }

    /// Judges the service's answer: a success status delivers the e-mail;
    /// any other is an external-service error that names the status and the
    /// answer.
    pub fn delivery_outcome(status: u16, status_text: &str, answer: &str) -> (res: Result<(), AppError>)
        ensures
            is_success(status) ==> res is Ok,
            !is_success(status) ==> (res matches Err(e) && e matches AppError::ExternalServiceError(m) && m@
                == "ZeptoMail error (status "@ + status_text@ + "): "@ + answer@),
    {
        if 200 <= status && status <= 299 {
            Ok(())
        } else {
            let mut m = String::from_str("ZeptoMail error (status ");
            m.append(status_text);
            m.append("): ");
            m.append(answer);
            Err(AppError::ExternalServiceError(m))
        }
    }

    /// The error of a request that could not be sent.
    pub fn request_failed(detail: &str) -> (res: AppError)
        ensures
            res matches AppError::ExternalServiceError(m) && m@ == "ZeptoMail request failed: "@ + detail@,
    {
        let mut m = String::from_str("ZeptoMail request failed: ");
        m.append(detail);
        AppError::ExternalServiceError(m)
    }

    /// The error of an answer that could not be read.
    pub fn unreadable_answer(detail: &str) -> (res: AppError)
        ensures
            res matches AppError::ExternalServiceError(m) && m@ == "Failed to parse ZeptoMail response: "@
                + detail@,
    {
        let mut m = String::from_str("Failed to parse ZeptoMail response: ");
        m.append(detail);
        AppError::ExternalServiceError(m)
    }
}

} // verus!
