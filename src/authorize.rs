use vstd::prelude::*;
use vstd::string::StringExecFns;

verus! {

broadcast use vstd::string::group_string_axioms;

/// The names of the `name=value` pairs of a form-encoded query, decoded, in
/// the order they appear.
pub uninterp spec fn form_keys(query: Seq<char>) -> Seq<Seq<char>>;

/// The parameters an authorize request must carry.
pub open spec fn names_required(keys: Seq<Seq<char>>) -> bool {
    &&& keys.contains("response_type"@)
    &&& keys.contains("client_id"@)
    &&& keys.contains("scope"@)
}

pub open spec fn key_views(keys: Seq<String>) -> Seq<Seq<char>> {
    keys.map_values(|k: String| k@)
}

/// Relies on url::form_urlencoded::parse: it yields the decoded pairs of the
/// query, of which the names are kept; an empty query yields none.
#[verifier::external_body]
fn query_keys(query: &str) -> (r: Vec<String>)
    ensures
        key_views(r@) == form_keys(query@),
        query@.len() == 0 ==> r@.len() == 0,
{
    url::form_urlencoded::parse(query.as_bytes()).map(|(k, _)| k.into_owned()).collect()
}

fn key_present(keys: &Vec<String>, name: &String) -> (r: bool)
    ensures
        r == key_views(keys@).contains(name@),
{
    let mut i: usize = 0;
    while i < keys.len()
        invariant
            i <= keys@.len(),
            forall|j: int| 0 <= j < i ==> keys@[j]@ != name@,
        decreases keys@.len() - i,
    {
        if keys[i] == *name {
            proof { assert(key_views(keys@)[i as int] == name@); }
            return true;
        }
        i = i + 1;
    }
    proof {
        if key_views(keys@).contains(name@) {
            let j = choose|j: int| 0 <= j < key_views(keys@).len() && key_views(keys@)[j] == name@;
            assert(keys@[j]@ == name@);
        }
    }
    false
}

/// Whether the parsed query names carry every required parameter, whatever
/// their values and whatever other parameters come along.
pub fn validate_keys(keys: &Vec<String>) -> (r: bool)
    ensures
        r == names_required(key_views(keys@)),
{
    let response_type = String::from_str("response_type");
    let client_id = String::from_str("client_id");
    let scope = String::from_str("scope");
    key_present(keys, &response_type) && key_present(keys, &client_id) && key_present(keys, &scope)
}

/// Validates the query string of an authorize request; a request without a
/// query string fails.
pub fn validate(query: Option<&str>) -> (r: bool)
    ensures
        r == match query {
            Some(q) => names_required(form_keys(q@)),
            None => false,
        },
{
    match query {
        Some(q) => {
            let keys = query_keys(q);
            validate_keys(&keys)
        },
        None => false,
    }
}

} // verus!
