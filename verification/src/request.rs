use vstd::prelude::*;

verus! {

/// One upload invocation, as the host dispatcher supplies it: a
/// caller-supplied identifier (uniqueness is the caller's responsibility),
/// the destination URL, the path of the file to stream, and the headers to
/// apply to the outgoing request.  The header list carries each entry in
/// order; keys are unique by construction on the caller's side, and were a
/// duplicate ever present, later entries would win when applied in order.
/// Nothing here outlives the invocation.
pub struct UploadJob {
    /// Caller-supplied job identifier, bound into every progress payload.
    pub id: u32,
    /// Destination of the HTTP PUT request.
    pub url: String,
    /// Path of the local file whose bytes become the request body.
    pub file_path: String,
    /// Header entries, each a key and its value, applied in order.
    pub headers: Vec<(String, String)>,
}

/// The assembled outgoing exchange: an HTTP PUT to the given URL carrying
/// exactly the given headers, with the job's chunk stream as its body.  The
/// method is always PUT; no header beyond the listed ones is synthesized
/// here (the transport may add its own defaults).
pub struct RequestPlan {
    /// Destination of the PUT request, taken verbatim from the job.
    pub url: String,
    /// The headers to apply, exactly the job's entries in the job's order.
    pub headers: Vec<(String, String)>,
}

impl UploadJob {
    /// The header mapping as a sequence of (key, value) character sequences.
    pub open spec fn headers_view(self) -> Seq<(Seq<char>, Seq<char>)> {
        self.headers@.map_values(|p: (String, String)| (p.0@, p.1@))
    }

    /// Assembles the outgoing request for this job: the destination URL is
    /// taken verbatim and every header entry is carried over exactly, in
    /// order, with nothing added and nothing dropped.
    pub fn into_plan(self) -> (plan: RequestPlan)
        ensures
            plan.url@ == self.url@,
            plan.headers@ == self.headers@,
    {
        RequestPlan { url: self.url, headers: self.headers }
    }
}

impl RequestPlan {
    /// The plan's headers as a sequence of (key, value) character sequences.
    pub open spec fn headers_view(self) -> Seq<(Seq<char>, Seq<char>)> {
        self.headers@.map_values(|p: (String, String)| (p.0@, p.1@))
    }
}

/// Every key present in the job's header mapping appears on the outgoing
/// request with its exact value, and the request carries no entry beyond
/// those of the mapping: assembly neither drops, reorders, rewrites nor
/// synthesizes a header.
pub proof fn lemma_headers_preserved(job: UploadJob, plan: RequestPlan)
    requires
        plan.headers@ == job.headers@,
    ensures
        plan.headers_view() == job.headers_view(),
        forall|k: Seq<char>, v: Seq<char>| job.headers_view().contains((k, v))
            ==> plan.headers_view().contains((k, v)),
{
}

} // verus!
