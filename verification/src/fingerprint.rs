//! Session fingerprint derivation from configured header names and the
//! request's header values.

use vstd::prelude::*;
use vstd::string::StringExecFns;

verus! {

/// The value of the first header named `name` in `headers`, if any; the
/// usual lookup on a request's header list.
pub open spec fn spec_header_value(headers: Seq<(String, String)>, name: Seq<char>) -> Option<
    Seq<char>,
>
    decreases headers.len(),
{
    if headers.len() == 0 {
        None
    } else if headers[0].0@ == name {
        Some(headers[0].1@)
    } else {
        spec_header_value(headers.drop_first(), name)
    }
}

/// The session fingerprint for the required header names `required`:
/// the ordered concatenation of their raw values, with no delimiter, or
/// nothing if any required header is absent. An empty `required` list
/// yields the empty fingerprint.
pub open spec fn spec_fingerprint(required: Seq<String>, headers: Seq<(String, String)>) -> Option<
    Seq<char>,
>
    decreases required.len(),
{
    if required.len() == 0 {
        Some(Seq::<char>::empty())
    } else {
        match spec_header_value(headers, required[0]@) {
            None => None,
            Some(v) => match spec_fingerprint(required.drop_first(), headers) {
                None => None,
                Some(rest) => Some(v + rest),
            },
        }
    }
}

/// Looks up the first header named `name` on the request.
pub fn header_value(headers: &Vec<(String, String)>, name: &String) -> (r: Option<String>)
    ensures
        match r {
            Some(v) => spec_header_value(headers@, name@) == Some(v@),
            None => spec_header_value(headers@, name@) is None,
        },
{
    let ghost h = headers@;
    proof {
        assert(h.skip(0) =~= h);
    }
    let mut i: usize = 0;
    while i < headers.len()
        invariant
            i <= h.len(),
            headers@ == h,
            spec_header_value(h.skip(i as int), name@) == spec_header_value(h, name@),
            forall|j: int| 0 <= j < i ==> h[j].0@ != name@,
        decreases h.len() - i,
    {
        proof {
            assert(h.skip(i as int)[0] == h[i as int]);
            assert(h.skip(i as int).drop_first() =~= h.skip(i + 1));
        }
        if headers[i].0 == *name {
            return Some(headers[i].1.clone());
        }
        i = i + 1;
    }
    proof {
        assert(h.skip(h.len() as int) =~= Seq::<(String, String)>::empty());
    }
    None
}

/// Derives the session fingerprint: walks the required header names in
/// configured order, fails on the first one the request lacks, and
/// otherwise concatenates the raw values in that order without a
/// delimiter. Two header-value combinations that concatenate identically
/// are deliberately the same session.
pub fn derive_fingerprint(required: &Vec<String>, headers: &Vec<(String, String)>) -> (r: Option<
    String,
>)
    ensures
        match r {
            Some(fp) => spec_fingerprint(required@, headers@) == Some(fp@),
            None => spec_fingerprint(required@, headers@) is None,
        },
{
    let ghost rq = required@;
    let mut acc = String::new();
    proof {
        assert(rq.skip(0) =~= rq);
        if spec_fingerprint(rq, headers@) is Some {
            let rest = spec_fingerprint(rq, headers@)->Some_0;
            assert(Seq::<char>::empty() + rest =~= rest);
        }
    }
    let mut i: usize = 0;
    while i < required.len()
        invariant
            i <= rq.len(),
            required@ == rq,
            match spec_fingerprint(rq.skip(i as int), headers@) {
                Some(rest) => spec_fingerprint(rq, headers@) == Some(acc@ + rest),
                None => spec_fingerprint(rq, headers@) is None,
            },
        decreases rq.len() - i,
    {
        proof {
            assert(rq.skip(i as int)[0] == rq[i as int]);
            assert(rq.skip(i as int).drop_first() =~= rq.skip(i + 1));
        }
        let ghost acc0 = acc@;
        match header_value(headers, &required[i]) {
            None => {
                return None;
            },
            Some(v) => {
                acc.append(v.as_str());
            },
        }
        proof {
            if spec_fingerprint(rq.skip(i + 1), headers@) is Some {
                let rest = spec_fingerprint(rq.skip(i + 1), headers@)->Some_0;
                let v0 = spec_header_value(headers@, rq[i as int]@)->Some_0;
                assert(spec_fingerprint(rq.skip(i as int), headers@) == Some(v0 + rest));
                assert((acc0 + (v0 + rest)) =~= (acc@ + rest));
            }
        }
        i = i + 1;
    }
    proof {
        assert(rq.skip(rq.len() as int) =~= Seq::<String>::empty());
        assert(acc@ + Seq::<char>::empty() =~= acc@);
    }
    Some(acc)
}

/// Fail-closed: if any configured required header is absent from the
/// request, fingerprint derivation yields nothing, whatever the other
/// headers hold.
pub proof fn lemma_fail_closed(required: Seq<String>, headers: Seq<(String, String)>, i: int)
    requires
        0 <= i < required.len(),
        spec_header_value(headers, required[i]@) is None,
    ensures
        spec_fingerprint(required, headers) is None,
    decreases required.len(),
{
    if i > 0 {
        assert(required.drop_first()[i - 1] == required[i]);
        lemma_fail_closed(required.drop_first(), headers, i - 1);
    }
}

} // verus!
