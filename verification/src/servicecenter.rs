//! The help desk: inquiries as stored and as shown to their authors.

use vstd::prelude::*;

verus! {

/// A stored inquiry. Days are day numbers.
pub struct ServiceCenter {
    pub service_center_id: i64,
    pub user_id: i64,
    pub title: String,
    pub content: String,
    pub status: String,
    pub created_date: i32,
    pub response_content: Option<String>,
    pub response_date: Option<i32>,
}

/// A new inquiry.
pub struct CreateInquiryRequest {
    pub title: String,
    pub content: String,
}

/// An inquiry as shown to its author. Days are day numbers.
pub struct InquiryResponse {
    pub id: i64,
    pub title: String,
    pub content: String,
    pub status: String,
    pub created_date: i32,
    pub response_content: Option<String>,
    pub response_date: Option<i32>,
}

/// `r` shows inquiry `sc`: every field but the author, the key as the id.
pub open spec fn shows_inquiry(sc: ServiceCenter, r: InquiryResponse) -> bool {
    &&& r.id == sc.service_center_id
    &&& r.title == sc.title
    &&& r.content == sc.content
    &&& r.status == sc.status
    &&& r.created_date == sc.created_date
    &&& r.response_content == sc.response_content
    &&& r.response_date == sc.response_date
}

/// Help-desk decisions; the caller reads and writes the records.
pub struct ServiceCenterService;

impl ServiceCenterService {
    /// An inquiry as shown to its author.
    pub fn to_response(sc: ServiceCenter) -> (r: InquiryResponse)
        ensures
            shows_inquiry(sc, r),
    {
        InquiryResponse {
            id: sc.service_center_id,
            title: sc.title,
            content: sc.content,
            status: sc.status,
            created_date: sc.created_date,
            response_content: sc.response_content,
            response_date: sc.response_date,
        }
    }

    /// A user's inquiries as shown to them, in the order read.
    pub fn to_responses(rows: Vec<ServiceCenter>) -> (r: Vec<InquiryResponse>)
        ensures
            r.len() == rows.len(),
            forall|i: int| 0 <= i < rows.len() ==> shows_inquiry(#[trigger] rows@[i], r@[i]),
    {
        let mut out: Vec<InquiryResponse> = Vec::new();
        let mut rows = rows;
        let ghost all = rows@;
        while rows.len() > 0
            invariant
                rows@ == all.skip(out.len() as int),
                rows.len() + out.len() == all.len(),
                forall|i: int| 0 <= i < out.len() ==> shows_inquiry(#[trigger] all[i], out@[i]),
            decreases rows.len(),
        {
            let sc = rows.remove(0);
            assert(sc == all[out.len() as int]);
            out.push(Self::to_response(sc));
            assert(rows@ =~= all.skip(out.len() as int));
        }
        out
    }
}

} // verus!
