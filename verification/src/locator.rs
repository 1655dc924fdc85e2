//! Endpoint locator: derives the filesystem path of the service's control
//! socket from the values of two environment variables, handed in by the
//! caller. Resolution is an ordered list of sources; the first one that is
//! set wins, with no merging and no existence check on the path.

use vstd::prelude::*;
use vstd::string::StringExecFns;

use crate::errors::UnlockError;

verus! {

/// One place the control endpoint may come from: the value of one
/// environment variable, if that variable was set, and the fixed suffix that
/// names the control socket under the directory the variable points at.
pub struct EndpointSource {
    pub value: Option<String>,
    pub suffix: String,
}

/// What an ordered list of sources resolves to: the first source whose value
/// is set yields that value followed by the source's suffix; a list with no
/// value set yields nothing.
pub open spec fn spec_resolved(sources: Seq<EndpointSource>) -> Option<Seq<char>>
    decreases sources.len(),
{
    if sources.len() == 0 {
        None
    } else {
        match sources[0].value {
            Some(dir) => Some(dir@ + sources[0].suffix@),
            None => spec_resolved(sources.drop_first()),
        }
    }
}

/// Resolve the control endpoint from an ordered list of sources: the first
/// source whose value is set wins; when none is set the resolution fails
/// with `EndpointNotFound`.
pub fn resolve_from_sources(sources: Vec<EndpointSource>) -> (r: Result<String, UnlockError>)
    ensures
        match spec_resolved(sources@) {
            Some(path) => r matches Ok(p) && p@ == path,
            None => r == Err::<String, UnlockError>(UnlockError::EndpointNotFound),
        },
{
    let mut i: usize = 0;
    proof {
        assert(sources@.skip(0) =~= sources@);
    }
    while i < sources.len()
        invariant
            i <= sources@.len(),
            spec_resolved(sources@) == spec_resolved(sources@.skip(i as int)),
        decreases sources@.len() - i,
    {
        let src = &sources[i];
        proof {
            assert(sources@.skip(i as int)[0] == sources@[i as int]);
        }
        match &src.value {
            Some(dir) => {
                let path = dir.clone().concat(src.suffix.as_str());
                return Ok(path);
            },
            None => {
                proof {
                    assert(sources@.skip(i as int).drop_first() =~= sources@.skip(i as int + 1));
                }
                i = i + 1;
            },
        }
    }
    proof {
        assert(sources@.skip(i as int).len() == 0);
    }
    Err(UnlockError::EndpointNotFound)
}

/// Resolve the control endpoint from the two environment values the protocol
/// defines, in order: a primary variable naming the service's control
/// directory, whose endpoint is `<value>/control`, and a fallback variable
/// naming the user's runtime directory, whose endpoint is
/// `<value>/keyring/control`. Neither set is `EndpointNotFound`.
pub fn resolve_endpoint(primary: Option<String>, fallback: Option<String>) -> (r: Result<
    String,
    UnlockError,
>)
    ensures
        primary matches Some(dir) ==> r matches Ok(p) && p@ == dir@ + "/control"@,
        primary is None ==> (fallback matches Some(dir) ==> r matches Ok(p) && p@ == dir@
            + "/keyring/control"@),
        primary is None && fallback is None ==> r == Err::<String, UnlockError>(
            UnlockError::EndpointNotFound,
        ),
{
    let mut sources: Vec<EndpointSource> = Vec::new();
    sources.push(EndpointSource { value: primary, suffix: "/control".to_owned() });
    sources.push(EndpointSource { value: fallback, suffix: "/keyring/control".to_owned() });
    proof {
        let s = sources@;
        assert(s.len() == 2);
        assert(s[0].value == primary && s[0].suffix@ == "/control"@);
        assert(s[1].value == fallback && s[1].suffix@ == "/keyring/control"@);
        let t = s.drop_first();
        assert(t[0] == s[1]);
        assert(primary matches Some(dir) ==> spec_resolved(s) == Some(dir@ + "/control"@));
        if primary is None {
            assert(spec_resolved(s) == spec_resolved(t));
            assert(fallback matches Some(dir) ==> spec_resolved(t) == Some(
                dir@ + "/keyring/control"@,
            ));
            if fallback is None {
                assert(t.drop_first().len() == 0);
                assert(spec_resolved(t.drop_first()) is None);
                assert(spec_resolved(t) is None);
            }
        }
    }
    resolve_from_sources(sources)
}

} // verus!
