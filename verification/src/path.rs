//! What holds of the paths of certifications.

use crate::certification::{
    full_view, response_only_view, skip_view, CertificationView, HttpCertification,
    SKIP_CEL_EXPRESSION,
};
use crate::digest::sha256;
use vstd::prelude::*;
use vstd::string::StringSliceAdditionalSpecFns;

verus! {

/// The path of a certification built by `skip` has one segment, the hash of
/// the skip policy's text.
pub proof fn lemma_skip_path(cert: HttpCertification)
    requires
        cert@ == skip_view(),
    ensures
        cert@.tree_path().len() == 1,
        cert@.tree_path() == seq![sha256(SKIP_CEL_EXPRESSION.spec_bytes())],
{
}

/// The path of a certification built by `response_only` has three segments:
/// the hash of the policy's text, an empty segment, and the response's hash.
pub proof fn lemma_response_only_path(
    cert: HttpCertification,
    cel_expr: Seq<u8>,
    response_hash: Seq<u8>,
)
    requires
        cert@ == response_only_view(cel_expr, response_hash),
    ensures
        cert@.tree_path().len() == 3,
        cert@.tree_path()[0] == sha256(cel_expr),
        cert@.tree_path()[1].len() == 0,
        cert@.tree_path()[2] == response_hash,
{
}

/// The path of a certification built by `full` has three segments, none of
/// them empty: the hash of the policy's text, the request's hash, and the
/// response's hash.
pub proof fn lemma_full_path(
    cert: HttpCertification,
    cel_expr: Seq<u8>,
    request_hash: Seq<u8>,
    response_hash: Seq<u8>,
)
    requires
        cert@ == full_view(cel_expr, request_hash, response_hash),
    ensures
        cert@.tree_path().len() == 3,
        cert@.tree_path()[0] == sha256(cel_expr),
        cert@.tree_path()[1] == request_hash,
        cert@.tree_path()[2] == response_hash,
        forall|i: int| 0 <= i < 3 ==> (#[trigger] cert@.tree_path()[i]).len() == 32,
{
    cert.lemma_view_wf();
}

/// Two certifications built by `skip` are equal, and so are their paths.
pub proof fn lemma_skip_deterministic(first: HttpCertification, second: HttpCertification)
    requires
        first@ == skip_view(),
        second@ == skip_view(),
    ensures
        first == second,
        first@.tree_path() == second@.tree_path(),
{
    first.lemma_view_injective(second);
}

/// Two certifications built by `response_only` from the same policy text and
/// the same response hash are equal, and so are their paths.
pub proof fn lemma_response_only_deterministic(
    first: HttpCertification,
    second: HttpCertification,
    cel_expr: Seq<u8>,
    response_hash: Seq<u8>,
)
    requires
        first@ == response_only_view(cel_expr, response_hash),
        second@ == response_only_view(cel_expr, response_hash),
    ensures
        first == second,
        first@.tree_path() == second@.tree_path(),
{
    first.lemma_view_injective(second);
}

/// Two certifications built by `full` from the same policy text and the same
/// hashes are equal, and so are their paths.
pub proof fn lemma_full_deterministic(
    first: HttpCertification,
    second: HttpCertification,
    cel_expr: Seq<u8>,
    request_hash: Seq<u8>,
    response_hash: Seq<u8>,
)
    requires
        first@ == full_view(cel_expr, request_hash, response_hash),
        second@ == full_view(cel_expr, request_hash, response_hash),
    ensures
        first == second,
        first@.tree_path() == second@.tree_path(),
{
    first.lemma_view_injective(second);
}

/// A path has one segment where nothing is certified and three otherwise, and
/// its first segment is never empty.
pub proof fn lemma_tree_path_shape(cert: HttpCertification)
    ensures
        cert@ is Skip <==> cert@.tree_path().len() == 1,
        !(cert@ is Skip) <==> cert@.tree_path().len() == 3,
        cert@.tree_path()[0].len() == 32,
        cert@ is ResponseOnly <==> cert@.tree_path().len() == 3 && cert@.tree_path()[1].len() == 0,
        cert@ is Full <==> cert@.tree_path().len() == 3 && cert@.tree_path()[1].len() == 32,
{
    cert.lemma_view_wf();
}

/// The path tells the certification: two certifications with the same path
/// are equal. In particular the empty second segment keeps a certification of
/// a response alone apart from every certification of a request and response.
pub proof fn lemma_tree_path_injective(first: HttpCertification, second: HttpCertification)
    requires
        first@.tree_path() == second@.tree_path(),
    ensures
        first == second,
{
    first.lemma_view_wf();
    second.lemma_view_wf();
    let p = first@.tree_path();
    let q = second@.tree_path();
    assert(p.len() == q.len());
    assert(p[0] == q[0]);
    if p.len() == 3 {
        assert(p[1] == q[1]);
        assert(p[2] == q[2]);
    }
    first.lemma_view_injective(second);
}

} // verus!
