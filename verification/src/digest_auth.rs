//! HTTP digest authentication as the Fronius inverter expects it: HA1 is MD5 of
//! `user:realm:password`, the response SHA-256 of
//! `HA1:nonce:nc:cnonce:qop:SHA-256(method:uri)`.
//!
//! The fields come from the `x-www-authenticate` header of a first, refused request;
//! each authenticated request then carries a header built from them and a fresh cnonce,
//! and counts up the nonce counter.
use sha2::Digest;
use vstd::prelude::*;
use vstd::string::*;
use crate::builders::is_lower_hex_digit;
use crate::fronius::FroniusError;
use crate::text::{
    decimal, has_prefix, replace_all, replaced, split_at_char, split_on, starts_with,
    string_views, take_chars, trim, trimmed, u64_to_decimal, zero_pad, zero_padded,
};

verus! {

/// The lowercase hexadecimal MD5 digest of the UTF-8 bytes of a text.
pub uninterp spec fn md5_hex(data: Seq<char>) -> Seq<char>;

/// The lowercase hexadecimal SHA-256 digest of the UTF-8 bytes of a text.
pub uninterp spec fn sha256_hex(data: Seq<char>) -> Seq<char>;

/// Computes `md5::compute` over the bytes of `data` and renders the digest with `{:x}`,
/// which writes each of its 16 bytes as two lowercase hex digits (`{:02x}`): the result is
/// `md5_hex(data)`, has 32 characters, and each is a lowercase hex digit.
#[verifier::external_body]
fn md5_hex_of(data: &String) -> (r: String)
    ensures
        r@ == md5_hex(data@),
        r@.len() == 32,
        forall|i: int| 0 <= i < r@.len() ==> is_lower_hex_digit(#[trigger] r@[i]),
{
    format!("{:x}", md5::compute(data.as_bytes()))
}

/// Computes `sha2::Sha256::digest` over the bytes of `data` and renders the digest with
/// `{:x}`, which writes each of its 32 bytes as two lowercase hex digits: the result is
/// `sha256_hex(data)` and has 64 characters.
#[verifier::external_body]
fn sha256_hex_of(data: &String) -> (r: String)
    ensures
        r@ == sha256_hex(data@),
        r@.len() == 64,
{
    format!("{:x}", sha2::Sha256::digest(data.as_bytes()))
}

/// The current time (`chrono::Utc::now`) plus `offset_secs` seconds, rendered with
/// `to_rfc2822`. The value depends on the clock: nothing is stated of it. `to_rfc2822` panics
/// for years of more than four digits; the bound on the offset (2^37 seconds, about 4355
/// years) keeps the sum within them for any clock before the year 5644.
#[verifier::external_body]
fn rfc2822_now_after(offset_secs: u64) -> (r: String)
    requires
        offset_secs < 0x20_0000_0000,
{
    (chrono::Utc::now() + std::time::Duration::from_secs(offset_secs)).to_rfc2822()
}

/// The state of a digest authentication.
pub struct DigestAuth {
    username: String,
    password: String,
    algorithm: Option<String>,
    nonce: Option<String>,
    realm: Option<String>,
    qop: Option<String>,
    nc: usize,
    cnonce: Option<String>,
    response: Option<String>,
}

/// The state of a digest authentication as values.
pub struct DigestAuthView {
    pub username: Seq<char>,
    pub password: Seq<char>,
    pub algorithm: Option<Seq<char>>,
    pub nonce: Option<Seq<char>>,
    pub realm: Option<Seq<char>>,
    pub qop: Option<Seq<char>>,
    pub nc: nat,
    pub cnonce: Option<Seq<char>>,
    pub response: Option<Seq<char>>,
}

/// The view of an optional text.
pub open spec fn opt_view(o: Option<String>) -> Option<Seq<char>> {
    match o {
        Some(s) => Some(s@),
        None => None,
    }
}

impl View for DigestAuth {
    type V = DigestAuthView;

    closed spec fn view(&self) -> DigestAuthView {
        DigestAuthView {
            username: self.username@,
            password: self.password@,
            algorithm: opt_view(self.algorithm),
            nonce: opt_view(self.nonce),
            realm: opt_view(self.realm),
            qop: opt_view(self.qop),
            nc: self.nc as nat,
            cnonce: opt_view(self.cnonce),
            response: opt_view(self.response),
        }
    }
}

/// The nonce counter as the header carries it: decimal, zero padded to 8 digits.
pub open spec fn padded_counter(nc: nat) -> Seq<char> {
    zero_padded(decimal(nc), 8)
}

/// The value of the Authorization header.
pub open spec fn authorization_header(
    username: Seq<char>,
    realm: Seq<char>,
    nonce: Seq<char>,
    uri: Seq<char>,
    response: Seq<char>,
    qop: Seq<char>,
    nc: nat,
    cnonce: Seq<char>,
) -> Seq<char> {
    "Digest username=\""@ + username + "\", realm=\""@ + realm + "\", nonce=\""@ + nonce
        + "\", uri=\""@ + uri + "\", response=\""@ + response + "\", qop="@ + qop + ", nc="@
        + padded_counter(nc) + ", cnonce=\""@ + cnonce + "\""@
}

/// The text whose SHA-256 is the digest response: `HA1:nonce:nc:cnonce:qop:HA2`, the counter
/// zero padded.
pub open spec fn response_input(
    ha1: Seq<char>,
    nonce: Seq<char>,
    nc: nat,
    cnonce: Seq<char>,
    qop: Seq<char>,
    ha2: Seq<char>,
) -> Seq<char> {
    ha1 + ":"@ + nonce + ":"@ + padded_counter(nc) + ":"@ + cnonce + ":"@ + qop + ":"@ + ha2
}

/// The digest response: SHA-256 of `MD5(user:realm:password):nonce:nc:cnonce:qop:HA2`
/// with `HA2` the SHA-256 of `method:uri`, all digests in lowercase hex.
pub open spec fn digest_response(
    username: Seq<char>,
    password: Seq<char>,
    realm: Seq<char>,
    nonce: Seq<char>,
    nc: nat,
    cnonce: Seq<char>,
    qop: Seq<char>,
    http_method: Seq<char>,
    uri: Seq<char>,
) -> Seq<char> {
    sha256_hex(
        response_input(
            md5_hex(username + ":"@ + realm + ":"@ + password),
            nonce,
            nc,
            cnonce,
            qop,
            sha256_hex(http_method + ":"@ + uri),
        ),
    )
}

/// Builds the text whose SHA-256 is the digest response (see [`response_input`]).
pub fn digest_response_input(
    ha1: &String,
    nonce: &String,
    nc: usize,
    cnonce: &String,
    qop: &String,
    ha2: &String,
) -> (r: String)
    ensures
        r@ == response_input(ha1@, nonce@, nc as nat, cnonce@, qop@, ha2@),
{
    let counter = u64_to_decimal(nc as u64);
    let padded_nc = zero_pad(counter.as_str(), 8);
    let mut input = ha1.clone();
    input.append(":");
    input.append(nonce.as_str());
    input.append(":");
    input.append(padded_nc.as_str());
    input.append(":");
    input.append(cnonce.as_str());
    input.append(":");
    input.append(qop.as_str());
    input.append(":");
    input.append(ha2.as_str());
    input
}

/// The cnonce drawn from a timestamp text: the first 16 hex digits of its MD5 digest.
pub open spec fn cnonce_of(timestamp: Seq<char>) -> Seq<char> {
    md5_hex(timestamp).take(16)
}

/// Whether `c` has the shape of a cnonce: 16 lowercase hex digits.
pub open spec fn is_cnonce_text(c: Seq<char>) -> bool {
    &&& c.len() == 16
    &&& forall|i: int| 0 <= i < 16 ==> is_lower_hex_digit(#[trigger] c[i])
}

/// `s` with every match of `pat` removed.
pub open spec fn removed(s: Seq<char>, pat: Seq<char>) -> Seq<char> {
    replaced(s, pat, Seq::empty())
}

/// The value of a field `key=value` of the header, without quotes and white space around.
pub open spec fn field_value(element: Seq<char>, key: Seq<char>) -> Seq<char> {
    trimmed(removed(removed(element, key), "\""@))
}

/// The state after reading one element of the `x-www-authenticate` header: an element that
/// starts (after white space) with `algorithm=`, `nonce=`, `realm=` or `qop=` sets that
/// field (the algorithm keeps its white space); others are ignored.
pub open spec fn with_header_element(d: DigestAuthView, element: Seq<char>) -> DigestAuthView {
    let t = trimmed(element);
    if has_prefix(t, "algorithm="@) {
        DigestAuthView { algorithm: Some(removed(removed(element, "algorithm="@), "\""@)), ..d }
    } else if has_prefix(t, "nonce="@) {
        DigestAuthView { nonce: Some(field_value(element, "nonce="@)), ..d }
    } else if has_prefix(t, "realm="@) {
        DigestAuthView { realm: Some(field_value(element, "realm="@)), ..d }
    } else if has_prefix(t, "qop="@) {
        DigestAuthView { qop: Some(field_value(element, "qop="@)), ..d }
    } else {
        d
    }
}

/// The state after reading the elements in order.
pub open spec fn with_header_elements(d: DigestAuthView, elements: Seq<Seq<char>>) -> DigestAuthView
    decreases elements.len(),
{
    if elements.len() == 0 {
        d
    } else {
        with_header_element(with_header_elements(d, elements.drop_last()), elements.last())
    }
}

/// The elements of an `x-www-authenticate` header: its pieces between commas, each with
/// every `Digest ` removed.
pub open spec fn header_elements(header: Seq<char>) -> Seq<Seq<char>> {
    split_on(header, ',').map_values(|e: Seq<char>| removed(e, "Digest "@))
}

/// The message of the error for a first response other than 401.
pub open spec fn first_request_message() -> Seq<char> {
    "First request needs to return 401 Unauthorized"@
}

/// The message of the error for missing authentication fields.
pub open spec fn authorization_failed_message() -> Seq<char> {
    "Authorization failed"@
}

/// The message of the error for a request before any handshake.
pub open spec fn handshake_missing_message() -> Seq<char> {
    "Authorization handshake missing!"@
}

/// The result of building the Authorization header from state `d` for `http_method` and
/// `uri`, with the cnonce drawn from `timestamp`, and the state after it: the cnonce is set
/// in any case; with algorithm, nonce, realm and qop known the response is computed, the
/// header built and the counter counted up, else the authorization fails.
pub open spec fn authenticated(
    d: DigestAuthView,
    uri: Seq<char>,
    http_method: Seq<char>,
    timestamp: Seq<char>,
) -> (Option<Seq<char>>, DigestAuthView) {
    let cnonce = cnonce_of(timestamp);
    let with_cnonce = DigestAuthView { cnonce: Some(cnonce), ..d };
    if d.algorithm is Some && d.nonce is Some && d.realm is Some && d.qop is Some {
        let response = digest_response(
            d.username,
            d.password,
            d.realm->0,
            d.nonce->0,
            d.nc,
            cnonce,
            d.qop->0,
            http_method,
            uri,
        );
        (
            Some(
                authorization_header(
                    d.username,
                    d.realm->0,
                    d.nonce->0,
                    uri,
                    response,
                    d.qop->0,
                    d.nc,
                    cnonce,
                ),
            ),
            DigestAuthView { response: Some(response), nc: d.nc + 1, ..with_cnonce },
        )
    } else {
        (None, with_cnonce)
    }
}

fn clone_opt(o: &Option<String>) -> (r: Option<String>)
    ensures
        opt_view(r) == opt_view(*o),
{
    match o {
        Some(s) => Some(s.clone()),
        None => None,
    }
}

impl DigestAuth {
    /// A fresh authentication for `username` and `password`: no field known, the counter
    /// at 1.
    pub fn new(username: &String, password: &String) -> (r: Self)
        ensures
            r@ == (DigestAuthView {
                username: username@,
                password: password@,
                algorithm: None,
                nonce: None,
                realm: None,
                qop: None,
                nc: 1,
                cnonce: None,
                response: None,
            }),
    {
        DigestAuth {
            username: username.clone(),
            password: password.clone(),
            algorithm: None,
            nonce: None,
            realm: None,
            qop: None,
            nc: 1,
            cnonce: None,
            response: None,
        }
    }

    /// The value of the Authorization header from the current fields and the given `uri`.
    pub fn format_authentication_header(&self, uri: &String) -> (r: String)
        requires
            self@.realm is Some,
            self@.nonce is Some,
            self@.response is Some,
            self@.qop is Some,
            self@.cnonce is Some,
        ensures
            r@ == authorization_header(
                self@.username,
                self@.realm->0,
                self@.nonce->0,
                uri@,
                self@.response->0,
                self@.qop->0,
                self@.nc,
                self@.cnonce->0,
            ),
    {
        let nc = u64_to_decimal(self.nc as u64);
        let padded_nc = zero_pad(nc.as_str(), 8);
        let mut r = String::from_str("Digest username=\"");
        r.append(self.username.as_str());
        r.append("\", realm=\"");
        r.append(self.realm.as_ref().unwrap().as_str());
        r.append("\", nonce=\"");
        r.append(self.nonce.as_ref().unwrap().as_str());
        r.append("\", uri=\"");
        r.append(uri.as_str());
        r.append("\", response=\"");
        r.append(self.response.as_ref().unwrap().as_str());
        r.append("\", qop=");
        r.append(self.qop.as_ref().unwrap().as_str());
        r.append(", nc=");
        r.append(padded_nc.as_str());
        r.append(", cnonce=\"");
        r.append(self.cnonce.as_ref().unwrap().as_str());
        r.append("\"");
        r
    }

    /// Reads one element of the `x-www-authenticate` header (see [`with_header_element`]).
    fn read_header_element(&mut self, element: &String)
        ensures
            final(self)@ == with_header_element(old(self)@, element@),
    {
        proof {
            reveal_strlit("");
            reveal_strlit("algorithm=");
            reveal_strlit("nonce=");
            reveal_strlit("realm=");
            reveal_strlit("qop=");
            reveal_strlit("\"");
            assert(""@ =~= Seq::<char>::empty());
        }
        let t = trim(element.as_str());
        if starts_with(t.as_str(), "algorithm=") {
            let without_key = replace_all(element.as_str(), "algorithm=", "");
            self.algorithm = Some(replace_all(without_key.as_str(), "\"", ""));
        } else if starts_with(t.as_str(), "nonce=") {
            let without_key = replace_all(element.as_str(), "nonce=", "");
            let unquoted = replace_all(without_key.as_str(), "\"", "");
            self.nonce = Some(trim(unquoted.as_str()));
        } else if starts_with(t.as_str(), "realm=") {
            let without_key = replace_all(element.as_str(), "realm=", "");
            let unquoted = replace_all(without_key.as_str(), "\"", "");
            self.realm = Some(trim(unquoted.as_str()));
        } else if starts_with(t.as_str(), "qop=") {
            let without_key = replace_all(element.as_str(), "qop=", "");
            let unquoted = replace_all(without_key.as_str(), "\"", "");
            self.qop = Some(trim(unquoted.as_str()));
        }
    }

    /// Reads the fields of an `x-www-authenticate` header (see [`header_elements`]).
    fn read_authenticate_header(&mut self, header: &String)
        ensures
            final(self)@ == with_header_elements(old(self)@, header_elements(header@)),
    {
        proof {
            reveal_strlit("");
            reveal_strlit("Digest ");
        }
        proof {
            assert(""@ =~= Seq::<char>::empty());
        }
        let pieces = split_at_char(header.as_str(), ',');
        let ghost elements = header_elements(header@);
        let ghost start = self@;
        let mut i: usize = 0;
        assert(elements.take(0) =~= Seq::<Seq<char>>::empty());
        while i < pieces.len()
            invariant
                i <= pieces@.len(),
                string_views(pieces@) == split_on(header@, ','),
                elements == header_elements(header@),
                self@ == with_header_elements(start, elements.take(i as int)),
            decreases pieces@.len() - i,
        {
            proof {
                reveal_strlit("");
                reveal_strlit("Digest ");
                assert(""@ =~= Seq::<char>::empty());
            }
            let element = replace_all(pieces[i].as_str(), "Digest ", "");
            assert(pieces@[i as int]@ == split_on(header@, ',')[i as int]);
            assert(element@ == elements[i as int]);
            assert(elements.take(i + 1).drop_last() =~= elements.take(i as int));
            self.read_header_element(&element);
            i = i + 1;
        }
        assert(elements.take(pieces@.len() as int) =~= elements);
    }

    /// Takes in the answer to the first, unauthenticated request, given by its status and
    /// its `x-www-authenticate` header (absent, unreadable, or its text). Nothing is done
    /// once a response was computed and the status is 200; any status other than 401 is an
    /// error; else the fields are read from the header, if there is one.
    pub fn populate_digest_auth_fields(
        &mut self,
        status: u16,
        authenticate_header: Option<Result<String, FroniusError>>,
    ) -> (r: Result<(), FroniusError>)
        ensures
            old(self)@.response is Some && status == 200 ==> r is Ok && final(self)@ == old(
                self,
            )@,
            !(old(self)@.response is Some && status == 200) && status != 401 ==> (r matches Err(
                e,
            ) && e.message@ == first_request_message()) && final(self)@ == old(self)@,
            !(old(self)@.response is Some && status == 200) && status == 401 ==> match authenticate_header {
                None => r is Ok && final(self)@ == old(self)@,
                Some(Err(e)) => (r matches Err(f) && f.message@ == e.message@) && final(self)@
                    == old(self)@,
                Some(Ok(h)) => r is Ok && final(self)@ == with_header_elements(
                    old(self)@,
                    header_elements(h@),
                ),
            },
    {
        if self.response.is_some() && status == 200 {
            return Ok(());
        }
        if status != 401 {
            return Err(
                FroniusError {
                    message: String::from_str("First request needs to return 401 Unauthorized"),
                },
            );
        }
        match authenticate_header {
            None => Ok(()),
            Some(Err(e)) => Err(e),
            Some(Ok(h)) => {
                self.read_authenticate_header(&h);
                Ok(())
            },
        }
    }

    /// Builds the Authorization header for `http_method` and `uri` with the cnonce drawn
    /// from `timestamp` (see [`authenticated`]).
    pub fn authentication_header_at(
        &mut self,
        uri: &String,
        http_method: &str,
        timestamp: &String,
    ) -> (r: Result<String, FroniusError>)
        requires
            old(self)@.nc < usize::MAX,
        ensures
            final(self)@ == authenticated(old(self)@, uri@, http_method@, timestamp@).1,
            final(self)@.cnonce matches Some(c) && is_cnonce_text(c),
            match authenticated(old(self)@, uri@, http_method@, timestamp@).0 {
                Some(h) => r matches Ok(v) && v@ == h,
                None => r matches Err(e) && e.message@ == authorization_failed_message(),
            },
    {
        let digest = md5_hex_of(timestamp);
        let cnonce = take_chars(digest.as_str(), 16);
        assert(is_cnonce_text(cnonce@)) by {
            assert forall|i: int| 0 <= i < 16 implies is_lower_hex_digit(#[trigger] cnonce@[i]) by {
                assert(cnonce@[i] == digest@[i]);
            }
        }
        self.cnonce = Some(cnonce);
        if self.algorithm.is_none() || self.nonce.is_none() || self.realm.is_none()
            || self.qop.is_none() {
            return Err(FroniusError { message: String::from_str("Authorization failed") });
        }
        let realm = clone_opt(&self.realm).unwrap();
        let nonce = clone_opt(&self.nonce).unwrap();
        let qop = clone_opt(&self.qop).unwrap();
        let cnonce = clone_opt(&self.cnonce).unwrap();
        let mut credentials = self.username.clone();
        credentials.append(":");
        credentials.append(realm.as_str());
        credentials.append(":");
        credentials.append(self.password.as_str());
        let md5_hashed_pw = md5_hex_of(&credentials);
        let mut method_uri = String::from_str(http_method);
        method_uri.append(":");
        method_uri.append(uri.as_str());
        let ha2 = sha256_hex_of(&method_uri);
        let input = digest_response_input(&md5_hashed_pw, &nonce, self.nc, &cnonce, &qop, &ha2);
        let response = sha256_hex_of(&input);
        Ok(self.complete_authentication(uri, response))
    }

    /// Records the digest `response` computed for `uri`, builds the Authorization header
    /// from it and counts the request.
    pub fn complete_authentication(&mut self, uri: &String, response: String) -> (r: String)
        requires
            old(self)@.realm is Some,
            old(self)@.nonce is Some,
            old(self)@.qop is Some,
            old(self)@.cnonce is Some,
            old(self)@.nc < usize::MAX,
        ensures
            final(self)@ == (DigestAuthView {
                response: Some(response@),
                nc: old(self)@.nc + 1,
                ..old(self)@
            }),
            r@ == authorization_header(
                old(self)@.username,
                old(self)@.realm->0,
                old(self)@.nonce->0,
                uri@,
                response@,
                old(self)@.qop->0,
                old(self)@.nc,
                old(self)@.cnonce->0,
            ),
    {
        self.response = Some(response);
        let auth_header = self.format_authentication_header(uri);
        self.nc = self.nc + 1;
        auth_header
    }

    /// Builds the Authorization header for `http_method` and `uri`, with a cnonce drawn from
    /// the current time plus as many seconds as the counter shows (see [`authenticated`]:
    /// the result is that of some timestamp).
    pub fn calculate_authentication_header(&mut self, uri: &String, http_method: &str) -> (r:
        Result<String, FroniusError>)
        requires
            old(self)@.nc < 0x20_0000_0000,
            old(self)@.nc < usize::MAX,
        ensures
            final(self)@.cnonce matches Some(c) && is_cnonce_text(c),
            exists|timestamp: Seq<char>|
                {
                    let (h, after) = #[trigger] authenticated(
                        old(self)@,
                        uri@,
                        http_method@,
                        timestamp,
                    );
                    &&& final(self)@ == after
                    &&& match h {
                        Some(v) => r matches Ok(w) && w@ == v,
                        None => r matches Err(e) && e.message@ == authorization_failed_message(),
                    }
                },
    {
        let timestamp = rfc2822_now_after(self.nc as u64);
        self.authentication_header_at(uri, http_method, &timestamp)
    }

    /// Checks that a handshake has taken place, as requests other than the first need.
    pub fn require_handshake(&self) -> (r: Result<(), FroniusError>)
        ensures
            r is Ok <==> self@.response is Some,
            r matches Err(e) ==> e.message@ == handshake_missing_message(),
    {
        if self.response.is_none() {
            Err(FroniusError { message: String::from_str("Authorization handshake missing!") })
        } else {
            Ok(())
        }
    }

    /// The nonce counter.
    pub fn nc(&self) -> (r: usize)
        ensures
            r == self@.nc,
    {
        self.nc
    }

    /// The nonce read from the server, if any.
    pub fn nonce(&self) -> (r: Option<String>)
        ensures
            opt_view(r) == self@.nonce,
    {
        clone_opt(&self.nonce)
    }

    /// The realm read from the server, if any.
    pub fn realm(&self) -> (r: Option<String>)
        ensures
            opt_view(r) == self@.realm,
    {
        clone_opt(&self.realm)
    }

    /// The quality of protection read from the server, if any.
    pub fn qop(&self) -> (r: Option<String>)
        ensures
            opt_view(r) == self@.qop,
    {
        clone_opt(&self.qop)
    }

    /// The algorithm read from the server, if any.
    pub fn algorithm(&self) -> (r: Option<String>)
        ensures
            opt_view(r) == self@.algorithm,
    {
        clone_opt(&self.algorithm)
    }

    /// The last cnonce, if any.
    pub fn cnonce(&self) -> (r: Option<String>)
        ensures
            opt_view(r) == self@.cnonce,
    {
        clone_opt(&self.cnonce)
    }

    /// The last digest response, if any.
    pub fn response(&self) -> (r: Option<String>)
        ensures
            opt_view(r) == self@.response,
    {
        clone_opt(&self.response)
    }
}

} // verus!
