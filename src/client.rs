use vstd::prelude::*;
use vstd::string::*;
use crate::digits::{decimal, push_decimal};
use crate::settings::MpesaSettings;
use crate::timestamp::UtcInstant;

verus! {

#[verifier::external_type_specification]
#[verifier::external_body]
pub struct ExHttpClient(reqwest::Client);

#[verifier::external_type_specification]
#[verifier::external_body]
pub struct ExHttpIdentity(reqwest::Identity);

#[verifier::external_type_specification]
#[verifier::external_body]
pub struct ExHttpError(reqwest::Error);

/// Failures of the payment-initiation client.
#[derive(Clone, Debug)]
pub enum MpesaError {
    /// The HTTP exchange itself failed (DNS, TLS handshake, timeout); holds its description.
    RequestFailed(String),
    /// The provider rejected the credentials.
    AuthenticationFailed,
    /// The provider answered with a non-success status, or with a body of the wrong shape.
    ApiError(String),
    /// The client certificate or private key could not be loaded.
    CertificateError(String),
    /// Reading the key-pair source failed.
    IoError(String),
}

/// The push-payment request, with the provider's field names.
#[allow(non_snake_case)]
#[derive(Clone, Debug)]
pub struct LipaNaMpesaRequest {
    pub BusinessShortCode: String,
    pub Password: String,
    pub Timestamp: String,
    pub TransactionType: String,
    pub Amount: String,
    pub PartyA: String,
    pub PartyB: String,
    pub PhoneNumber: String,
    pub CallBackURL: String,
    pub AccountReference: String,
    pub TransactionDesc: String,
}

/// The provider's synchronous acknowledgment of a push-payment request.
#[allow(non_snake_case)]
#[derive(Clone, Debug)]
pub struct LipaNaMpesaResponse {
    pub MerchantRequestID: String,
    pub CheckoutRequestID: String,
    pub ResponseCode: String,
    pub ResponseDescription: String,
}

/// Client certificate chain and private key, each in DER form.
#[derive(Clone, Debug)]
pub struct KeyMaterial {
    pub certificates: Vec<Vec<u8>>,
    pub private_key: Vec<u8>,
}

/// The standard padded base64 text of the UTF-8 bytes of `s`.
pub uninterp spec fn base64_text_of(s: Seq<char>) -> Seq<char>;

/// The DER of each CERTIFICATE section of a PEM text, in order; `None` when reading fails.
pub uninterp spec fn pem_certificates_of(pem: Seq<u8>) -> Option<Seq<Seq<u8>>>;

/// The DER of each PKCS#8 PRIVATE KEY section of a PEM text, in order; `None` when reading fails.
pub uninterp spec fn pem_pkcs8_keys_of(pem: Seq<u8>) -> Option<Seq<Seq<u8>>>;

/// Relies on base64's `encode` (standard alphabet, padded): the text depends on the
/// bytes alone, and decoding gives them back, so distinct strings encode differently.
#[verifier::external_body]
#[allow(deprecated)]
fn encode_base64(s: &str) -> (r: String)
    ensures
        r@ == base64_text_of(s@),
        forall|t: Seq<char>| #[trigger] base64_text_of(t) == r@ ==> t == s@,
{
    base64::encode(s)
}

/// Relies on rustls_pemfile's `certs`: every certificate section of `pem`, or the first read error.
#[verifier::external_body]
fn read_pem_certificates(pem: &[u8]) -> (r: Result<Vec<Vec<u8>>, String>)
    ensures
        match r {
            Ok(v) => pem_certificates_of(pem@) == Some(v.deep_view()),
            Err(_) => pem_certificates_of(pem@) is None,
        },
{
    let mut rd: &[u8] = pem;
    rustls_pemfile::certs(&mut rd).map(|c| c.map(|c| c.to_vec()).map_err(|e| e.to_string())).collect()
}

/// Relies on rustls_pemfile's `pkcs8_private_keys`: every PKCS#8 key section of `pem`,
/// or the first read error.
#[verifier::external_body]
fn read_pem_pkcs8_keys(pem: &[u8]) -> (r: Result<Vec<Vec<u8>>, String>)
    ensures
        match r {
            Ok(v) => pem_pkcs8_keys_of(pem@) == Some(v.deep_view()),
            Err(_) => pem_pkcs8_keys_of(pem@) is None,
        },
{
    let mut rd: &[u8] = pem;
    rustls_pemfile::pkcs8_private_keys(&mut rd)
        .map(|k| k.map(|k| k.secret_pkcs8_der().to_vec()).map_err(|e| e.to_string()))
        .collect()
}

/// Relies on reqwest's `Identity::from_pem`: the client identity of a PEM text that
/// holds a certificate chain and a private key.
#[verifier::external_body]
fn identity_from_pem(pem: &[u8]) -> (r: Result<reqwest::Identity, reqwest::Error>) {
    reqwest::Identity::from_pem(pem)
}

/// Relies on reqwest's `ClientBuilder::identity` and `build`: an HTTPS client that
/// presents `identity` and checks servers against its built-in trust roots.
#[verifier::external_body]
fn client_with_identity(identity: reqwest::Identity) -> (r: Result<reqwest::Client, reqwest::Error>) {
    reqwest::Client::builder().identity(identity).build()
}

/// Relies on the `Display` of `reqwest::Error`: the error's description.
#[verifier::external_body]
fn describe_error(e: &reqwest::Error) -> (r: String) {
    e.to_string()
}

/// The key-pair text holds at least one certificate and at least one PKCS#8 key.
pub open spec fn key_material_usable(pem: Seq<u8>) -> bool {
    &&& pem_certificates_of(pem) matches Some(cs) && cs.len() > 0
    &&& pem_pkcs8_keys_of(pem) matches Some(ks) && ks.len() > 0
}

/// Reads the certificate chain and the first PKCS#8 private key of a PEM key-pair text.
pub fn load_key_material(pem: &[u8]) -> (r: Result<KeyMaterial, MpesaError>)
    ensures
        r is Ok <==> key_material_usable(pem@),
        r matches Err(e) ==> e is CertificateError,
        r matches Ok(km) ==> {
            &&& pem_certificates_of(pem@) == Some(km.certificates.deep_view())
            &&& pem_pkcs8_keys_of(pem@) matches Some(ks) && km.private_key@ == ks[0]
        },
{
    let certificates = match read_pem_certificates(pem) {
        Ok(c) => c,
        Err(e) => {
            return Err(MpesaError::CertificateError(e));
        },
    };
    if certificates.len() == 0 {
        return Err(MpesaError::CertificateError(String::from_str("no certificate found in key-pair file")));
    }
    let mut keys = match read_pem_pkcs8_keys(pem) {
        Ok(k) => k,
        Err(e) => {
            return Err(MpesaError::CertificateError(e));
        },
    };
    if keys.len() == 0 {
        return Err(MpesaError::CertificateError(String::from_str("no private key found in key-pair file")));
    }
    let ghost all_keys = keys.deep_view();
    let private_key = keys.remove(0);
    assert(private_key@ == all_keys[0]);
    Ok(KeyMaterial { certificates, private_key })
}

/// The authorization password: base64 of short code, pass key and timestamp text, joined.
pub open spec fn password_view(short_code: Seq<char>, pass_key: Seq<char>, timestamp: Seq<char>) -> Seq<char> {
    base64_text_of(short_code + pass_key + timestamp)
}

/// Derives the request password for `timestamp`; an instant in another second
/// gives another password.
pub fn derive_password(short_code: &str, pass_key: &str, timestamp: &UtcInstant) -> (r: String)
    requires
        timestamp.wf(),
    ensures
        r@ == password_view(short_code@, pass_key@, timestamp.compact_view()),
        forall|other: UtcInstant|
            other.wf() && !other.same_second(*timestamp)
                ==> password_view(short_code@, pass_key@, #[trigger] other.compact_view()) != r@,
{
    let ts = timestamp.compact();
    let joined = String::from_str(short_code).concat(pass_key).concat(ts.as_str());
    let r = encode_base64(joined.as_str());
    proof {
        assert(joined@ =~= short_code@ + pass_key@ + timestamp.compact_view());
        assert forall|other: UtcInstant|
            other.wf() && !other.same_second(*timestamp)
            implies password_view(short_code@, pass_key@, #[trigger] other.compact_view()) != r@ by {
            let o = short_code@ + pass_key@ + other.compact_view();
            if base64_text_of(o) == r@ {
                let n = (short_code@.len() + pass_key@.len()) as int;
                crate::timestamp::lemma_compact_len(other);
                crate::timestamp::lemma_compact_len(*timestamp);
                assert(o.subrange(n, n + 14) =~= other.compact_view());
                assert(joined@.subrange(n, n + 14) =~= timestamp.compact_view());
                crate::timestamp::lemma_compact_same_second(other, *timestamp);
            }
        }
    }
    r
}

/// Passwords are deterministic: instants in the same second give the same password
/// for the same short code and pass key (that other seconds give other passwords is
/// stated by `derive_password`).
pub proof fn lemma_password_deterministic(
    short_code: Seq<char>,
    pass_key: Seq<char>,
    first: UtcInstant,
    second: UtcInstant,
)
    requires
        first.wf(),
        second.wf(),
        first.same_second(second),
    ensures
        password_view(short_code, pass_key, first.compact_view())
            == password_view(short_code, pass_key, second.compact_view()),
{
    crate::timestamp::lemma_compact_same_second(first, second);
}

/// The transaction type of a push payment.
pub open spec fn transaction_type_view() -> Seq<char> {
    "CustomerPayBillOnline"@
}

/// The path of the push-payment endpoint below the base URL.
pub open spec fn process_request_path() -> Seq<char> {
    "/mpesa/stkpush/v1/processrequest"@
}

/// Outcome of a push-payment exchange from the HTTP status and the body, `None`
/// when the body did not have the acknowledgment's shape.
pub fn classify_response(status: u16, body: Option<LipaNaMpesaResponse>) -> (r: Result<LipaNaMpesaResponse, MpesaError>)
    ensures
        200 <= status < 300 && body is Some ==> r == Ok::<LipaNaMpesaResponse, MpesaError>(body->0),
        200 <= status < 300 && body is None ==> (r matches Err(MpesaError::ApiError(m))
            && m@ == "response body is not an acknowledgment"@),
        !(200 <= status < 300) ==> (r matches Err(MpesaError::ApiError(m)) && m@ == decimal(status as nat)),
{
    proof {
        reveal_strlit("response body is not an acknowledgment");
    }
    if 200 <= status && status < 300 {
        match body {
            Some(b) => Ok(b),
            None => Err(MpesaError::ApiError(String::from_str("response body is not an acknowledgment"))),
        }
    } else {
        let mut m = String::new();
        push_decimal(&mut m, status as u64);
        assert(m@ =~= decimal(status as nat));
        Err(MpesaError::ApiError(m))
    }
}

/// The push-payment client: an HTTPS client bound to the merchant's key pair,
/// and the settings each request is built from.
pub struct MpesaClient {
    pub client: reqwest::Client,
    pub base_url: String,
    pub consumer_key: String,
    pub consumer_secret: String,
    pub passkey: String,
    pub callback_url: String,
    pub business_short_code: String,
    pub party_b: String,
}

impl MpesaClient {
    /// The client's settings are those of `settings`.
    pub open spec fn configured_from(&self, settings: &MpesaSettings) -> bool {
        &&& self.base_url@ == settings.base_url@
        &&& self.consumer_key@ == settings.consumer_key@
        &&& self.consumer_secret@ == settings.consumer_secret@
        &&& self.passkey@ == settings.passkey@
        &&& self.callback_url@ == settings.callback_url@
        &&& self.business_short_code@ == settings.business_short_code@
        &&& self.party_b@ == settings.party_b@
    }

    /// Builds the client from the settings and the text of the key-pair file
    /// (certificate chain followed by a PKCS#8 private key, in PEM).
    pub fn new(settings: &MpesaSettings, key_pair_pem: &[u8]) -> (r: Result<MpesaClient, MpesaError>)
        ensures
            !key_material_usable(key_pair_pem@) ==> (r matches Err(e) && e is CertificateError),
            r matches Ok(c) ==> key_material_usable(key_pair_pem@) && c.configured_from(settings),
            r matches Err(e) ==> (e is CertificateError || e is RequestFailed),
    {
        match load_key_material(key_pair_pem) {
            Ok(_) => {},
            Err(e) => {
                return Err(e);
            },
        }
        let identity = match identity_from_pem(key_pair_pem) {
            Ok(i) => i,
            Err(e) => {
                return Err(MpesaError::CertificateError(describe_error(&e)));
            },
        };
        let client = match client_with_identity(identity) {
            Ok(c) => c,
            Err(e) => {
                return Err(MpesaError::RequestFailed(describe_error(&e)));
            },
        };
        Ok(MpesaClient {
            client,
            base_url: settings.base_url.clone(),
            consumer_key: settings.consumer_key.clone(),
            consumer_secret: settings.consumer_secret.clone(),
            passkey: settings.passkey.clone(),
            callback_url: settings.callback_url.clone(),
            business_short_code: settings.business_short_code.clone(),
            party_b: settings.party_b.clone(),
        })
    }

    /// The password of a request stamped `timestamp`.
    pub fn generate_password(&self, timestamp: &UtcInstant) -> (r: String)
        requires
            timestamp.wf(),
        ensures
            r@ == password_view(self.business_short_code@, self.passkey@, timestamp.compact_view()),
    {
        derive_password(self.business_short_code.as_str(), self.passkey.as_str(), timestamp)
    }

    /// The URL that push-payment requests are posted to.
    pub fn process_request_url(&self) -> (r: String)
        ensures
            r@ == self.base_url@ + process_request_path(),
    {
        proof {
            reveal_strlit("/mpesa/stkpush/v1/processrequest");
        }
        self.base_url.clone().concat("/mpesa/stkpush/v1/processrequest")
    }

    /// `req` is the request for these arguments, stamped with `timestamp` and
    /// signed with the password of that same timestamp.
    pub open spec fn is_request_for(
        &self,
        phone_number: Seq<char>,
        amount: Seq<char>,
        account_reference: Seq<char>,
        transaction_desc: Seq<char>,
        timestamp: Seq<char>,
        req: LipaNaMpesaRequest,
    ) -> bool {
        &&& req.BusinessShortCode@ == self.business_short_code@
        &&& req.Password@ == password_view(self.business_short_code@, self.passkey@, timestamp)
        &&& req.Timestamp@ == timestamp
        &&& req.TransactionType@ == transaction_type_view()
        &&& req.Amount@ == amount
        &&& req.PartyA@ == phone_number
        &&& req.PartyB@ == self.party_b@
        &&& req.PhoneNumber@ == phone_number
        &&& req.CallBackURL@ == self.callback_url@
        &&& req.AccountReference@ == account_reference
        &&& req.TransactionDesc@ == transaction_desc
    }

    /// The push-payment request for the arguments, stamped `timestamp`; `amount`
    /// is the decimal text of the amount.
    pub fn build_request(
        &self,
        phone_number: &str,
        amount: &str,
        account_reference: &str,
        transaction_desc: &str,
        timestamp: &UtcInstant,
    ) -> (r: LipaNaMpesaRequest)
        requires
            timestamp.wf(),
        ensures
            self.is_request_for(phone_number@, amount@, account_reference@, transaction_desc@,
                timestamp.compact_view(), r),
    {
        proof {
            reveal_strlit("CustomerPayBillOnline");
        }
        LipaNaMpesaRequest {
            BusinessShortCode: self.business_short_code.clone(),
            Password: self.generate_password(timestamp),
            Timestamp: timestamp.compact(),
            TransactionType: String::from_str("CustomerPayBillOnline"),
            Amount: String::from_str(amount),
            PartyA: String::from_str(phone_number),
            PartyB: self.party_b.clone(),
            PhoneNumber: String::from_str(phone_number),
            CallBackURL: self.callback_url.clone(),
            AccountReference: String::from_str(account_reference),
            TransactionDesc: String::from_str(transaction_desc),
        }
    }

    /// The push-payment request for the arguments, stamped with the current UTC
    /// second; `None` when the clock reads a year outside 0..=9999.
    pub fn prepare_request(
        &self,
        phone_number: &str,
        amount: &str,
        account_reference: &str,
        transaction_desc: &str,
    ) -> (r: Option<LipaNaMpesaRequest>)
        ensures
            r matches Some(req) ==> req.Timestamp@.len() == 14 && self.is_request_for(
                phone_number@, amount@, account_reference@, transaction_desc@, req.Timestamp@, req),
    {
        match UtcInstant::now() {
            Some(t) => {
                proof {
                    crate::timestamp::lemma_compact_len(t);
                }
                Some(self.build_request(phone_number, amount, account_reference, transaction_desc, &t))
            },
            None => None,
        }
    }
}

} // verus!
