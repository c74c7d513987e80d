//! The Basic-auth challenges sent to unauthenticated clients, and the OPDS 2.0
//! authentication document that comes with the 2.0 one.
use vstd::prelude::*;
use crate::text::{join3, text_eq};

verus! {

/// The `Authorization` header value sent with every Basic challenge.
pub const BASIC_SCHEME: &'static str = "Basic";

/// The realm of the plain Basic challenge.
pub const BASIC_REALM: &'static str = "Basic realm=\"stump\"";

/// The start of the OPDS realm, which the version and a closing quote follow.
pub const OPDS_REALM_START: &'static str = "Basic realm=\"stump OPDS v";

/// The end of the OPDS realm.
pub const OPDS_REALM_END: &'static str = "\"";

/// The one version that gets the authentication document.
pub const OPDS_V2: &'static str = "2.0";

/// The route of the OPDS 2.0 authentication document.
pub const OPDS_AUTH_DOCUMENT_PATH: &'static str = "/opds/v2.0/auth";

/// The media type of the authentication document.
pub const OPDS_AUTHENTICATION_DOCUMENT_TYPE: &'static str = "application/opds-authentication+json";

/// The content type of the 2.0 challenge body.
pub const OPDS_AUTHENTICATION_CONTENT_TYPE: &'static str =
    "application/opds-authentication+json; charset=utf-8";

/// The link relation of the authentication document.
pub const OPDS_AUTHENTICATION_DOCUMENT_REL: &'static str = "http://opds-spec.org/auth/document";

/// What follows the service url in the `Link` header of the 2.0 challenge.
pub const OPDS_AUTH_LINK_END: &'static str =
    "/opds/v2.0/auth>; rel=\"http://opds-spec.org/auth/document\"; type=\"application/opds-authentication+json\"";

/// The authentication flow the document offers.
pub const OPDS_BASIC_FLOW: &'static str = "http://opds-spec.org/auth/basic";

/// How the document describes the Basic flow.
pub const OPDS_BASIC_FLOW_DESCRIPTION: &'static str = "Enter your username and password to authenticate.";

/// Where the help link of the document points.
pub const OPDS_HELP_HREF: &'static str = "https://www.stumpapp.dev/guides/opds";

/// The favicon served by the web client, relative to the service url.
pub const FAVICON_PATH: &'static str = "/assets/favicon.png";

/// A link of an OPDS document.
#[derive(Debug)]
pub struct OPDSLink {
    pub href: String,
    pub rel: String,
    pub media_type: String,
}

/// The OPDS 2.0 authentication document.
#[derive(Debug)]
pub struct OPDSAuthenticationDocument {
    pub id: String,
    pub description: String,
    pub flow: String,
    pub links: Vec<OPDSLink>,
}

/// A terminating `401` challenge, as plain values for the HTTP layer to send.
#[derive(Debug)]
pub struct ChallengeResponse {
    pub status: u16,
    /// The `Authorization` header.
    pub authorization: String,
    /// The `WWW-Authenticate` header.
    pub www_authenticate: String,
    /// The `Content-Type` header, if any.
    pub content_type: Option<String>,
    /// The `Link` header, if any.
    pub link: Option<String>,
    /// Whether to send a header that deletes the session cookie.
    pub clear_session_cookie: bool,
    /// The JSON body; no body when `None`.
    pub document: Option<OPDSAuthenticationDocument>,
}

/// The details of an OPDS Basic challenge.
pub struct OPDSBasicAuth {
    pub version: String,
    pub service_url: String,
}

/// The `WWW-Authenticate` value of an OPDS challenge for `version`.
pub open spec fn opds_realm(version: Seq<char>) -> Seq<char> {
    OPDS_REALM_START@ + version + OPDS_REALM_END@
}

/// The OPDS challenge for `version` from a service at `url`: a 2.0 one carries
/// the authentication document, its content type, a `Link` to the document and
/// a cookie deletion; any other carries the realm alone.
pub open spec fn opds_challenge_for(r: ChallengeResponse, version: Seq<char>, url: Seq<char>) -> bool {
    &&& r.status == 401
    &&& r.authorization@ == BASIC_SCHEME@
    &&& r.www_authenticate@ == opds_realm(version)
    &&& if version == OPDS_V2@ {
        &&& r.content_type matches Some(c) && c@ == OPDS_AUTHENTICATION_CONTENT_TYPE@
        &&& r.link matches Some(l) && l@ == "<"@ + url + OPDS_AUTH_LINK_END@
        &&& r.clear_session_cookie
        &&& r.document matches Some(d) && d.id@ == url + OPDS_AUTH_DOCUMENT_PATH@
            && d.links@.len() == 2
    } else {
        &&& r.content_type is None
        &&& r.link is None
        &&& !r.clear_session_cookie
        &&& r.document is None
    }
}

impl OPDSLink {
    /// The link to the help pages.
    pub fn help() -> (r: OPDSLink)
        ensures
            r.href@ == OPDS_HELP_HREF@,
            r.rel@ == "help"@,
            r.media_type@ == "text/html"@,
    {
        OPDSLink {
            href: OPDS_HELP_HREF.to_owned(),
            rel: "help".to_owned(),
            media_type: "text/html".to_owned(),
        }
    }

    /// The link to the logo at `href`.
    pub fn logo(href: String) -> (r: OPDSLink)
        ensures
            r.href == href,
            r.rel@ == "logo"@,
            r.media_type@ == "image/png"@,
    {
        OPDSLink { href, rel: "logo".to_owned(), media_type: "image/png".to_owned() }
    }
}

impl OPDSBasicAuth {
    pub fn new(version: String, service_url: String) -> (r: OPDSBasicAuth)
        ensures
            r.version == version,
            r.service_url == service_url,
    {
        OPDSBasicAuth { version, service_url }
    }

    /// The authentication document for the service.
    pub fn document(&self) -> (r: OPDSAuthenticationDocument)
        ensures
            r.id@ == self.service_url@ + OPDS_AUTH_DOCUMENT_PATH@,
            r.description@ == OPDS_BASIC_FLOW_DESCRIPTION@,
            r.flow@ == OPDS_BASIC_FLOW@,
            r.links@.len() == 2,
            r.links@[0].rel@ == "help"@,
            r.links@[1].rel@ == "logo"@,
            r.links@[1].href@ == self.service_url@ + FAVICON_PATH@,
    {
        let mut links: Vec<OPDSLink> = Vec::new();
        links.push(OPDSLink::help());
        links.push(OPDSLink::logo(join3(self.service_url.as_str(), FAVICON_PATH, "")));
        proof {
            assert(self.service_url@ + FAVICON_PATH@ + ""@ =~= self.service_url@ + FAVICON_PATH@)
                by {
                reveal_strlit("");
            }
        }
        OPDSAuthenticationDocument {
            id: join3(self.service_url.as_str(), OPDS_AUTH_DOCUMENT_PATH, ""),
            description: OPDS_BASIC_FLOW_DESCRIPTION.to_owned(),
            flow: OPDS_BASIC_FLOW.to_owned(),
            links,
        }
    }

    /// The challenge sent for this version.
    pub fn challenge(&self) -> (r: ChallengeResponse)
        ensures
            opds_challenge_for(r, self.version@, self.service_url@),
    {
        let realm = join3(OPDS_REALM_START, self.version.as_str(), OPDS_REALM_END);
        if text_eq(self.version.as_str(), OPDS_V2) {
            let document = self.document();
            proof {
                reveal_strlit("");
                assert(self.service_url@ + OPDS_AUTH_DOCUMENT_PATH@ + ""@ =~= self.service_url@
                    + OPDS_AUTH_DOCUMENT_PATH@);
            }
            ChallengeResponse {
                status: 401,
                authorization: BASIC_SCHEME.to_owned(),
                www_authenticate: realm,
                content_type: Some(OPDS_AUTHENTICATION_CONTENT_TYPE.to_owned()),
                link: Some(join3("<", self.service_url.as_str(), OPDS_AUTH_LINK_END)),
                clear_session_cookie: true,
                document: Some(document),
            }
        } else {
            ChallengeResponse {
                status: 401,
                authorization: BASIC_SCHEME.to_owned(),
                www_authenticate: realm,
                content_type: None,
                link: None,
                clear_session_cookie: false,
                document: None,
            }
        }
    }
}

/// The plain Basic challenge, outside the OPDS surface.
pub struct BasicAuth;

impl BasicAuth {
    pub fn challenge(&self) -> (r: ChallengeResponse)
        ensures
            r.status == 401,
            r.authorization@ == BASIC_SCHEME@,
            r.www_authenticate@ == BASIC_REALM@,
            r.content_type is None,
            r.link is None,
            !r.clear_session_cookie,
            r.document is None,
    {
        ChallengeResponse {
            status: 401,
            authorization: BASIC_SCHEME.to_owned(),
            www_authenticate: BASIC_REALM.to_owned(),
            content_type: None,
            link: None,
            clear_session_cookie: false,
            document: None,
        }
    }
}

/// The 2.0 challenge carries the realm for 2.0 and a document whose `links`
/// array is not empty; a challenge for any other version has the same kind of
/// realm and no body.
pub proof fn law_opds_challenge_shapes(r: ChallengeResponse, version: Seq<char>, url: Seq<char>)
    requires
        opds_challenge_for(r, version, url),
    ensures
        r.status == 401,
        r.www_authenticate@ == OPDS_REALM_START@ + version + OPDS_REALM_END@,
        version == OPDS_V2@ ==> (r.document matches Some(d) && d.links@.len() > 0),
        version != OPDS_V2@ ==> r.document is None,
{
}

} // verus!
