use vstd::prelude::*;
use vstd::string::StrSliceExecFns;
use vstd::string::StringExecFns;

use crate::errors::ResolveError;
use crate::outpoint::OutPointRef;
use crate::outpoint::OutPointView;
use crate::outpoint::outpoint_from_str;
use crate::outpoint::outpoint_of_str;

verus! {

/// What resolving an inscription identifier yields: the coin holding the
/// inscription and that output's value in satoshis.
#[derive(Debug)]
pub struct InscriptionInfo {
    pub outpoint: OutPointRef,
    pub amount: u64,
}

/// The mathematical content of an `InscriptionInfo`.
#[verifier::ext_equal]
pub struct InscriptionInfoView {
    pub outpoint: OutPointView,
    pub amount: u64,
}

impl View for InscriptionInfo {
    type V = InscriptionInfoView;

    open spec fn view(&self) -> InscriptionInfoView {
        InscriptionInfoView { outpoint: self.outpoint@, amount: self.amount }
    }
}

impl InscriptionInfo {
    /// A well-formed record holds a well-formed coin reference.
    pub open spec fn wf(&self) -> bool {
        self.outpoint.wf()
    }
}

impl Clone for InscriptionInfo {
    fn clone(&self) -> (r: Self)
        ensures
            r == *self,
    {
        InscriptionInfo { outpoint: self.outpoint.clone(), amount: self.amount }
    }
}

/// First match of an identifier in a lookup table, scanning in order.
pub open spec fn lookup_spec(
    table: Seq<(Seq<char>, InscriptionInfoView)>,
    id: Seq<char>,
) -> Option<InscriptionInfoView>
    decreases table.len(),
{
    if table.len() == 0 {
        None
    } else if table[0].0 == id {
        Some(table[0].1)
    } else {
        lookup_spec(table.drop_first(), id)
    }
}

/// Resolves inscription identifiers by an exact-match probe of a table
/// loaded once and fixed for the process's lifetime.
pub struct StaticInscriptionIdResolver {
    entries: Vec<(String, InscriptionInfo)>,
}

impl View for StaticInscriptionIdResolver {
    type V = Seq<(Seq<char>, InscriptionInfoView)>;

    closed spec fn view(&self) -> Seq<(Seq<char>, InscriptionInfoView)> {
        Seq::new(self.entries@.len(), |i: int| (self.entries@[i].0@, self.entries@[i].1@))
    }
}

impl StaticInscriptionIdResolver {
    /// A well-formed table holds well-formed records throughout.
    pub open spec fn wf(&self) -> bool {
        forall|i: int| 0 <= i < self@.len() ==> (#[trigger] self@[i].1).outpoint.wf()
    }

    /// Builds the resolver from identifier-to-record pairs, probed in order.
    pub fn new(entries: Vec<(String, InscriptionInfo)>) -> (r: Self)
        requires
            forall|i: int| 0 <= i < entries@.len() ==> (#[trigger] entries@[i].1).wf(),
        ensures
            r@ == Seq::new(entries@.len(), |i: int| (entries@[i].0@, entries@[i].1@)),
            r.wf(),
    {
        let r = StaticInscriptionIdResolver { entries };
        assert forall|i: int| 0 <= i < r@.len() implies (#[trigger] r@[i].1).outpoint.wf() by {
            assert(r.entries@[i].1.wf());
        }
        r
    }

    /// Looks the identifier up in the table: the exact stored record for a
    /// present identifier, and `NotFound` for an absent one.
    pub fn resolve_inscription_id(&self, inscription_id: &str) -> (r: Result<
        InscriptionInfo,
        ResolveError,
    >)
        requires
            self.wf(),
        ensures
            match lookup_spec(self@, inscription_id@) {
                Some(info) => r matches Ok(o) && o@ == info && o.wf(),
                None => r matches Err(e) && e == ResolveError::NotFound,
            },
    {
        let needle: String = inscription_id.to_owned();
        let n: usize = self.entries.len();
        let mut i: usize = 0;
        assert(self@.skip(0) =~= self@);
        while i < n
            invariant
                i <= n == self.entries@.len(),
                needle@ == inscription_id@,
                self.wf(),
                lookup_spec(self@, inscription_id@) == lookup_spec(
                    self@.skip(i as int),
                    inscription_id@,
                ),
            decreases n - i,
        {
            let hit: bool = self.entries[i].0 == needle;
            proof {
                assert(self@.skip(i as int)[0] == self@[i as int]);
                assert(self@[i as int].0 == self.entries@[i as int].0@);
                assert(self@.skip(i as int).drop_first() =~= self@.skip(i + 1));
            }
            if hit {
                let found = self.entries[i].1.clone();
                assert(found@ == self@[i as int].1);
                return Ok(found);
            }
            i = i + 1;
        }
        assert(self@.skip(n as int).len() == 0);
        Err(ResolveError::NotFound)
    }
}

/// First colon at or after position `i`, if any.
pub open spec fn colon_index_from(s: Seq<char>, i: int) -> Option<int>
    decreases s.len() - i,
{
    if i < 0 || i >= s.len() {
        None
    } else if s[i] == ':' {
        Some(i)
    } else {
        colon_index_from(s, i + 1)
    }
}

/// What taking a satpoint's coin reference yields. A satpoint is a coin
/// reference followed by a sub-output offset, colon-delimited; only the
/// first two components form the coin reference and the offset is
/// discarded, so the text must have a colon after the output index, and the
/// part before that colon must be a well-formed outpoint string.
pub open spec fn satpoint_outpoint_of(s: Seq<char>) -> Option<OutPointView> {
    match colon_index_from(s, 65) {
        None => None,
        Some(j) => outpoint_of_str(s.subrange(0, j)),
    }
}

/// Takes the coin reference out of a satpoint, discarding the sub-output
/// offset. A satpoint with only one colon has no offset component and is
/// malformed.
pub fn satpoint_to_outpoint(satpoint: &str) -> (r: Result<OutPointRef, ResolveError>)
    ensures
        match satpoint_outpoint_of(satpoint@) {
            Some(op) => r matches Ok(o) && o@ == op && o.wf(),
            None => r matches Err(e) && e == ResolveError::MalformedResponse,
        },
{
    match find_colon_from(satpoint, 65) {
        None => Err(ResolveError::MalformedResponse),
        Some(j) => {
            let prefix: &str = satpoint.substring_char(0, j);
            match outpoint_from_str(prefix) {
                Some(op) => Ok(op),
                None => Err(ResolveError::MalformedResponse),
            }
        },
    }
}

/// What reading an indexing-service response yields: the output-value and
/// satpoint fields of the JSON text, or nothing when the text is not a JSON
/// object carrying both. A function of the response text alone.
pub uninterp spec fn inscription_fields_of(body: Seq<char>) -> Option<(u64, Seq<char>)>;

/// Relies on serde_json::from_str, serde_json::Value::get,
/// serde_json::Value::as_u64 and serde_json::Value::as_str to read the
/// `output_value` and `satpoint` fields of an indexing-service response;
/// the outcome depends on the response text alone and is named
/// `inscription_fields_of`.
#[verifier::external_body]
fn extract_inscription_fields(body: &str) -> (r: Option<(u64, String)>)
    ensures
        match r {
            Some(p) => inscription_fields_of(body@) matches Some(q) && p.0 == q.0 && p.1@
                == q.1,
            None => inscription_fields_of(body@) is None,
        },
{
    let v: serde_json::Value = serde_json::from_str(body).ok()?;
    let amount = v.get("output_value")?.as_u64()?;
    let satpoint = v.get("satpoint")?.as_str()?.to_owned();
    Some((amount, satpoint))
}

/// What resolving an identifier from a fetched response text yields: the
/// record whose coin reference is the satpoint's, with the offset
/// discarded, and whose amount is the output value; or `MalformedResponse`
/// when the fields are missing or the satpoint does not parse.
pub open spec fn resolve_response_spec(body: Seq<char>) -> Result<
    InscriptionInfoView,
    ResolveError,
> {
    match inscription_fields_of(body) {
        None => Err(ResolveError::MalformedResponse),
        Some(q) => match satpoint_outpoint_of(q.1) {
            None => Err(ResolveError::MalformedResponse),
            Some(op) => Ok(InscriptionInfoView { outpoint: op, amount: q.0 }),
        },
    }
}

/// Resolves inscription identifiers against a remote indexing service. The
/// service is asked at `{base_url}/inscriptions/{id}`; fetching is left to
/// the caller, and `resolve_from_response` reads the answer.
pub struct OrdServerInscriptionIdResolver {
    url: String,
}

impl View for OrdServerInscriptionIdResolver {
    type V = Seq<char>;

    closed spec fn view(&self) -> Seq<char> {
        self.url@
    }
}

impl OrdServerInscriptionIdResolver {
    /// Remembers the service's base URL.
    pub fn new(url: &str) -> (r: Self)
        ensures
            r@ == url@,
    {
        OrdServerInscriptionIdResolver { url: url.to_owned() }
    }

    /// The URL to fetch for an identifier:
    /// `{base_url}/inscriptions/{id}`.
    pub fn request_path(&self, inscription_id: &str) -> (r: String)
        ensures
            r@ == self@ + "/inscriptions/"@ + inscription_id@,
    {
        self.url.clone().concat("/inscriptions/").concat(inscription_id)
    }

    /// Reads a fetched response: the resolved record, or
    /// `MalformedResponse` when the response does not carry a usable
    /// output value and satpoint.
    pub fn resolve_from_response(&self, body: &str) -> (r: Result<InscriptionInfo, ResolveError>)
        ensures
            match resolve_response_spec(body@) {
                Ok(info) => r matches Ok(o) && o@ == info && o.wf(),
                Err(e) => r matches Err(e2) && e2 == e,
            },
    {
        match extract_inscription_fields(body) {
            None => Err(ResolveError::MalformedResponse),
            Some(p) => {
                let (amount, satpoint) = p;
                match satpoint_to_outpoint(satpoint.as_str()) {
                    Err(e) => Err(e),
                    Ok(op) => Ok(InscriptionInfo { outpoint: op, amount }),
                }
            },
        }
    }
}

/// First colon of `s` at or after position `start`, if any.
fn find_colon_from(s: &str, start: usize) -> (r: Option<usize>)
    ensures
        match colon_index_from(s@, start as int) {
            Some(j) => r matches Some(u) && u == j && start <= u < s@.len() && s@[u as int]
                == ':',
            None => r is None,
        },
{
    let n: usize = s.unicode_len();
    let mut j: usize = start;
    while j < n
        invariant
            start <= j,
            n == s@.len(),
            j <= n || j == start,
            colon_index_from(s@, start as int) == colon_index_from(s@, j as int),
        decreases n - j,
    {
        if s.get_char(j) == ':' {
            return Some(j);
        }
        assert(colon_index_from(s@, j as int) == colon_index_from(s@, j + 1));
        j = j + 1;
    }
    None
}

} // verus!
