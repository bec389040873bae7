//! The three kinds of certification and their paths in a certification tree.

use crate::digest::{hash_text, sha256};
use std::borrow::Cow;
use vstd::prelude::*;
use vstd::slice::slice_to_vec;
use vstd::std_specs::convert::FromSpecImpl;
use vstd::string::StringSliceAdditionalSpecFns;

verus! {

/// The text of the policy that certifies neither request nor response.
pub const SKIP_CEL_EXPRESSION: &'static str =
    "default_certification(ValidationArgs{no_certification:Empty{}})";

/// Why a certification could not be built.
#[derive(Debug, Clone, Copy, PartialEq, Eq)]
pub enum HttpCertificationError {
    /// The request could not be hashed under the policy's rules.
    RequestHashingFailed,
}

/// What a certification records, with each hash as a byte string.
pub enum CertificationView {
    /// Neither the request nor the response is certified.
    Skip { cel_expr_hash: Seq<u8> },
    /// The response is certified, the request is not.
    ResponseOnly { cel_expr_hash: Seq<u8>, response_hash: Seq<u8> },
    /// Both the request and the response are certified.
    Full { cel_expr_hash: Seq<u8>, request_hash: Seq<u8>, response_hash: Seq<u8> },
}

/// What `skip` records.
pub open spec fn skip_view() -> CertificationView {
    CertificationView::Skip { cel_expr_hash: sha256(SKIP_CEL_EXPRESSION.spec_bytes()) }
}

/// What `response_only` records for the bytes of a policy's text and the hash
/// of a response.
pub open spec fn response_only_view(
    cel_expr: Seq<u8>,
    response_hash: Seq<u8>,
) -> CertificationView {
    CertificationView::ResponseOnly { cel_expr_hash: sha256(cel_expr), response_hash }
}

/// What `full` records for the bytes of a policy's text, the hash of a request
/// and the hash of a response.
pub open spec fn full_view(
    cel_expr: Seq<u8>,
    request_hash: Seq<u8>,
    response_hash: Seq<u8>,
) -> CertificationView {
    CertificationView::Full { cel_expr_hash: sha256(cel_expr), request_hash, response_hash }
}

impl CertificationView {
    /// Every hash that is recorded is 32 bytes long.
    pub open spec fn wf(self) -> bool {
        match self {
            CertificationView::Skip { cel_expr_hash } => cel_expr_hash.len() == 32,
            CertificationView::ResponseOnly { cel_expr_hash, response_hash } => {
                &&& cel_expr_hash.len() == 32
                &&& response_hash.len() == 32
            },
            CertificationView::Full { cel_expr_hash, request_hash, response_hash } => {
                &&& cel_expr_hash.len() == 32
                &&& request_hash.len() == 32
                &&& response_hash.len() == 32
            },
        }
    }

    /// The path of the certification in a certification tree: the policy's
    /// hash alone where nothing is certified, else the policy's hash, the
    /// request's hash (empty where the request is left out) and the
    /// response's hash.
    pub open spec fn tree_path(self) -> Seq<Seq<u8>> {
        match self {
            CertificationView::Skip { cel_expr_hash } => seq![cel_expr_hash],
            CertificationView::ResponseOnly { cel_expr_hash, response_hash } => seq![
                cel_expr_hash,
                Seq::<u8>::empty(),
                response_hash,
            ],
            CertificationView::Full { cel_expr_hash, request_hash, response_hash } => seq![
                cel_expr_hash,
                request_hash,
                response_hash,
            ],
        }
    }
}

#[derive(Debug, Clone, Copy, PartialEq, Eq)]
enum HttpCertificationType {
    Skip { cel_expr_hash: ic_certification::Hash },
    ResponseOnly { cel_expr_hash: ic_certification::Hash, response_hash: ic_certification::Hash },
    Full {
        cel_expr_hash: ic_certification::Hash,
        request_hash: ic_certification::Hash,
        response_hash: ic_certification::Hash,
    },
}

/// A certified request and response pair.
///
/// There are three kinds: `skip()` leaves both the request and the response
/// out of certification, `response_only()` certifies the response alone, and
/// `full()` certifies both.
#[derive(Debug, Clone, Copy, PartialEq, Eq)]
pub struct HttpCertification(HttpCertificationType);

impl View for HttpCertification {
    type V = CertificationView;

    closed spec fn view(&self) -> CertificationView {
        match self.0 {
            HttpCertificationType::Skip { cel_expr_hash } => CertificationView::Skip {
                cel_expr_hash: cel_expr_hash@,
            },
            HttpCertificationType::ResponseOnly { cel_expr_hash, response_hash } => {
                CertificationView::ResponseOnly {
                    cel_expr_hash: cel_expr_hash@,
                    response_hash: response_hash@,
                }
            },
            HttpCertificationType::Full { cel_expr_hash, request_hash, response_hash } => {
                CertificationView::Full {
                    cel_expr_hash: cel_expr_hash@,
                    request_hash: request_hash@,
                    response_hash: response_hash@,
                }
            },
        }
    }
}

impl HttpCertification {
    /// Creates a certification that leaves out both the request and the
    /// response: it records the hash of the skip policy's text and nothing
    /// else.
    pub fn skip() -> (cert: HttpCertification)
        ensures
            cert@ == skip_view(),
    {
        let cel_expr_hash = hash_text(SKIP_CEL_EXPRESSION);
        HttpCertification(HttpCertificationType::Skip { cel_expr_hash })
    }

    /// Creates a certification of a response alone. `cel_expr` is the text of
    /// the policy and `response_hash` the hash of the response under the
    /// policy's rules. The certification records the hash of the text and the
    /// response's hash as given.
    pub fn response_only(cel_expr: &str, response_hash: ic_certification::Hash) -> (cert:
        HttpCertification)
        ensures
            cert@ == response_only_view(cel_expr.spec_bytes(), response_hash@),
    {
        let cel_expr_hash = hash_text(cel_expr);
        HttpCertification(HttpCertificationType::ResponseOnly { cel_expr_hash, response_hash })
    }

    /// Creates a certification of a request and its response. `cel_expr` is
    /// the text of the policy, `request_hash` the hash of the request under
    /// the policy's rules, or `None` where the request could not be hashed
    /// under them, and `response_hash` the hash of the response. Without a
    /// request hash there is no certification; with one, the certification
    /// records the hash of the text and both hashes as given.
    pub fn full(
        cel_expr: &str,
        request_hash: Option<ic_certification::Hash>,
        response_hash: ic_certification::Hash,
    ) -> (result: Result<HttpCertification, HttpCertificationError>)
        ensures
            match request_hash {
                Some(request_hash) => result matches Ok(cert) && cert@ == full_view(
                    cel_expr.spec_bytes(),
                    request_hash@,
                    response_hash@,
                ),
                None => result == Err::<HttpCertification, HttpCertificationError>(
                    HttpCertificationError::RequestHashingFailed,
                ),
            },
    {
        let cel_expr_hash = hash_text(cel_expr);
        match request_hash {
            Some(request_hash) => Ok(
                HttpCertification(
                    HttpCertificationType::Full { cel_expr_hash, request_hash, response_hash },
                ),
            ),
            None => Err(HttpCertificationError::RequestHashingFailed),
        }
    }

    /// Encodes the certification as its path in a certification tree.
    pub fn to_tree_path(self) -> (path: Vec<Vec<u8>>)
        ensures
            path.deep_view() == self@.tree_path(),
            path@.len() == self@.tree_path().len(),
            forall|i: int|
                0 <= i < path@.len() ==> (#[trigger] path@[i])@ == self@.tree_path()[i],
    {
        let mut path: Vec<Vec<u8>> = Vec::new();
        match self.0 {
            HttpCertificationType::Skip { cel_expr_hash } => {
                path.push(slice_to_vec(cel_expr_hash.as_slice()));
            },
            HttpCertificationType::ResponseOnly { cel_expr_hash, response_hash } => {
                path.push(slice_to_vec(cel_expr_hash.as_slice()));
                path.push(Vec::new());
                path.push(slice_to_vec(response_hash.as_slice()));
            },
            HttpCertificationType::Full { cel_expr_hash, request_hash, response_hash } => {
                path.push(slice_to_vec(cel_expr_hash.as_slice()));
                path.push(slice_to_vec(request_hash.as_slice()));
                path.push(slice_to_vec(response_hash.as_slice()));
            },
        }
        assert(path.deep_view() =~~= self@.tree_path());
        path
    }

    /// Every hash that a certification records is 32 bytes long.
    pub proof fn lemma_view_wf(self)
        ensures
            self@.wf(),
    {
    }

    /// Two certifications that record the same are equal.
    pub proof fn lemma_view_injective(self, other: HttpCertification)
        requires
            self@ == other@,
        ensures
            self == other,
    {
        match (self.0, other.0) {
            (
                HttpCertificationType::Skip { cel_expr_hash: c1 },
                HttpCertificationType::Skip { cel_expr_hash: c2 },
            ) => {
                assert(c1 =~= c2);
            },
            (
                HttpCertificationType::ResponseOnly { cel_expr_hash: c1, response_hash: r1 },
                HttpCertificationType::ResponseOnly { cel_expr_hash: c2, response_hash: r2 },
            ) => {
                assert(c1 =~= c2 && r1 =~= r2);
            },
            (
                HttpCertificationType::Full {
                    cel_expr_hash: c1,
                    request_hash: q1,
                    response_hash: r1,
                },
                HttpCertificationType::Full {
                    cel_expr_hash: c2,
                    request_hash: q2,
                    response_hash: r2,
                },
            ) => {
                assert(c1 =~= c2 && q1 =~= q2 && r1 =~= r2);
            },
            _ => {},
        }
    }
}

/// An owned certification, for a caller that takes either form.
impl<'a> From<HttpCertification> for Cow<'a, HttpCertification> {
    fn from(cert: HttpCertification) -> (cow: Cow<'a, HttpCertification>) {
        Cow::Owned(cert)
    }
}

impl<'a> FromSpecImpl<HttpCertification> for Cow<'a, HttpCertification> {
    open spec fn obeys_from_spec() -> bool {
        true
    }

    open spec fn from_spec(cert: HttpCertification) -> Self {
        Cow::Owned(cert)
    }
}

/// A borrowed certification, for a caller that takes either form.
impl<'a> From<&'a HttpCertification> for Cow<'a, HttpCertification> {
    fn from(cert: &'a HttpCertification) -> (cow: Cow<'a, HttpCertification>) {
        Cow::Borrowed(cert)
    }
}

impl<'a> FromSpecImpl<&'a HttpCertification> for Cow<'a, HttpCertification> {
    open spec fn obeys_from_spec() -> bool {
        true
    }

    open spec fn from_spec(cert: &'a HttpCertification) -> Self {
        Cow::Borrowed(cert)
    }
}

} // verus!
