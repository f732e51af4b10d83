//! What a peer or the server reads back of each request this client writes:
//! the request's code, then each field, in order, up to the end of the bytes.
use vstd::prelude::*;
use vstd::utf8::encode_utf8;
use crate::message::pack::Pack;
use crate::message::unpack::Unpack;
use crate::message::laws::{law_u32_roundtrip, law_bool_roundtrip, law_text_roundtrip};
use crate::message::peer_requests::{QueueUpload, UserInfoResponse};
use crate::message::server_requests::{LoginRequest, FileSearch};

verus! {

/// A request to queue an upload reads back as code 43 and then the file
/// name, whose encoding runs to the end of the request.
pub proof fn law_queue_upload_reads_back(request: QueueUpload)
    requires
        encode_utf8(request.filename@).len() <= u32::MAX,
    ensures
        u32::unpacked_at(request.packed(), 0) == Some((43u32, 4int)),
        String::unpacked_at(request.packed(), 4) == Some(
            (request.filename@, request.packed().len() as int),
        ),
{
    let name = request.filename.packed();
    let all = request.packed();
    assert(u32::unpacked_at(all, 0) == Some((43u32, 4int))) by {
        assert(all =~= Seq::<u8>::empty() + 43u32.packed() + name);
        law_u32_roundtrip(43, Seq::empty(), name);
    }
    assert(all =~= 43u32.packed() + name + Seq::<u8>::empty());
    law_text_roundtrip(request.filename, 43u32.packed(), Seq::empty());
}

/// A login request reads back as code 1, the user name, the password, then
/// the version 160, which ends the request.
pub proof fn law_login_request_reads_back(request: LoginRequest)
    requires
        encode_utf8(request.username@).len() <= u32::MAX,
        encode_utf8(request.password@).len() <= u32::MAX,
    ensures
        ({
            let all = request.packed();
            let p1 = 4 + request.username.packed().len();
            let p2 = p1 + request.password.packed().len();
            &&& u32::unpacked_at(all, 0) == Some((1u32, 4int))
            &&& String::unpacked_at(all, 4) == Some((request.username@, p1 as int))
            &&& String::unpacked_at(all, p1 as int) == Some((request.password@, p2 as int))
            &&& u32::unpacked_at(all, p2 as int) == Some((160u32, p2 + 4int))
            &&& all.len() == p2 + 4
        }),
{
    let c = 1u32.packed();
    let u = request.username.packed();
    let p = request.password.packed();
    let v = 160u32.packed();
    let all = request.packed();
    assert(u32::unpacked_at(all, 0) == Some((1u32, 4int))) by {
        assert(all =~= Seq::<u8>::empty() + c + (u + p + v));
        law_u32_roundtrip(1, Seq::empty(), u + p + v);
    }
    assert(String::unpacked_at(all, 4) == Some((request.username@, 4 + u.len() as int))) by {
        assert(all =~= c + u + (p + v));
        law_text_roundtrip(request.username, c, p + v);
    }
    assert(String::unpacked_at(all, 4 + u.len() as int) == Some(
        (request.password@, 4 + u.len() + p.len() as int),
    )) by {
        assert(all =~= (c + u) + p + v);
        law_text_roundtrip(request.password, c + u, v);
    }
    assert(u32::unpacked_at(all, 4 + u.len() + p.len() as int) == Some(
        (160u32, 8 + u.len() + p.len() as int),
    )) by {
        assert(all =~= (c + u + p) + v + Seq::<u8>::empty());
        law_u32_roundtrip(160, c + u + p, Seq::empty());
    }
}

/// A file search reads back as code 26, the token, then the query, whose
/// encoding runs to the end of the request.
pub proof fn law_file_search_reads_back(request: FileSearch)
    requires
        encode_utf8(request.query@).len() <= u32::MAX,
    ensures
        u32::unpacked_at(request.packed(), 0) == Some((26u32, 4int)),
        u32::unpacked_at(request.packed(), 4) == Some((request.token, 8int)),
        String::unpacked_at(request.packed(), 8) == Some(
            (request.query@, request.packed().len() as int),
        ),
{
    let c = 26u32.packed();
    let t = request.token.packed();
    let q = request.query.packed();
    let all = request.packed();
    assert(u32::unpacked_at(all, 0) == Some((26u32, 4int))) by {
        assert(all =~= Seq::<u8>::empty() + c + (t + q));
        law_u32_roundtrip(26, Seq::empty(), t + q);
    }
    assert(u32::unpacked_at(all, 4) == Some((request.token, 8int))) by {
        assert(all =~= c + t + q);
        law_u32_roundtrip(request.token, c, q);
    }
    assert(all =~= (c + t) + q + Seq::<u8>::empty());
    law_text_roundtrip(request.query, c + t, Seq::empty());
}

/// A profile reads back as code 16, the description, whether there is a
/// picture, the total upload, the queue size, then whether slots are free,
/// which ends the profile.
#[verifier::rlimit(60)]
pub proof fn law_user_info_response_reads_back(response: UserInfoResponse)
    requires
        encode_utf8(response.description@).len() <= u32::MAX,
    ensures
        ({
            let all = response.packed();
            let p1 = 4 + response.description.packed().len();
            &&& u32::unpacked_at(all, 0) == Some((16u32, 4int))
            &&& String::unpacked_at(all, 4) == Some((response.description@, p1 as int))
            &&& bool::unpacked_at(all, p1 as int) == Some((response.has_picture, p1 + 1int))
            &&& u32::unpacked_at(all, p1 + 1int) == Some((response.total_upload, p1 + 5int))
            &&& u32::unpacked_at(all, p1 + 5int) == Some((response.queue_size, p1 + 9int))
            &&& bool::unpacked_at(all, p1 + 9int) == Some((response.slots_free, p1 + 10int))
            &&& all.len() == p1 + 10
        }),
{
    let c = 16u32.packed();
    let d = response.description.packed();
    let h = response.has_picture.packed();
    let t = response.total_upload.packed();
    let q = response.queue_size.packed();
    let f = response.slots_free.packed();
    let all = response.packed();
    let p1 = 4 + d.len() as int;
    assert(u32::unpacked_at(all, 0) == Some((16u32, 4int))) by {
        assert(all =~= Seq::<u8>::empty() + c + (d + h + t + q + f));
        law_u32_roundtrip(16, Seq::empty(), d + h + t + q + f);
    }
    assert(String::unpacked_at(all, 4) == Some((response.description@, p1))) by {
        assert(all =~= c + d + (h + t + q + f));
        law_text_roundtrip(response.description, c, h + t + q + f);
    }
    assert(bool::unpacked_at(all, p1) == Some((response.has_picture, p1 + 1))) by {
        assert(all =~= (c + d) + h + (t + q + f));
        law_bool_roundtrip(response.has_picture, c + d, t + q + f);
    }
    assert(u32::unpacked_at(all, p1 + 1) == Some((response.total_upload, p1 + 5))) by {
        assert(all =~= (c + d + h) + t + (q + f));
        law_u32_roundtrip(response.total_upload, c + d + h, q + f);
    }
    assert(u32::unpacked_at(all, p1 + 5) == Some((response.queue_size, p1 + 9))) by {
        assert(all =~= (c + d + h + t) + q + f);
        law_u32_roundtrip(response.queue_size, c + d + h + t, f);
    }
    assert(bool::unpacked_at(all, p1 + 9) == Some((response.slots_free, p1 + 10))) by {
        assert(all =~= (c + d + h + t + q) + f + Seq::<u8>::empty());
        law_bool_roundtrip(response.slots_free, c + d + h + t + q, Seq::empty());
    }
}

} // verus!
