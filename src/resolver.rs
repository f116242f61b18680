use vstd::prelude::*;

use crate::catalog::{canonical_name, Service};
use crate::matcher::{has_version, lemma_version_unique, is_package_id, Version};

verus! {

/// The version of a service's client library to show documentation for.
#[derive(Debug, Clone, Copy, PartialEq, Eq, Structural)]
pub enum ResolvedVersion {
    /// The version found installed.
    Exact(Version),
    /// Nothing installed was found: the latest published version.
    Latest,
}

/// The identifiers of a dependency graph, as character sequences.
pub open spec fn id_views(ids: Seq<String>) -> Seq<Seq<char>> {
    ids.map_values(|s: String| s@)
}

/// The version named by the first identifier, in the order given, that matches
/// the pattern for `name`; `Latest` where none does.
pub open spec fn first_match(ids: Seq<Seq<char>>, name: Seq<char>) -> ResolvedVersion
    decreases ids.len(),
{
    if ids.len() == 0 {
        ResolvedVersion::Latest
    } else if exists|v: Version| has_version(ids[0], name, v) {
        ResolvedVersion::Exact(choose|v: Version| has_version(ids[0], name, v))
    } else {
        first_match(ids.drop_first(), name)
    }
}

/// The installed version of `service`'s client library among the package
/// identifiers `ids` of a dependency graph, taken in the order given: the first
/// that matches wins.
pub fn resolve(service: Service, ids: &Vec<String>) -> (r: ResolvedVersion)
    ensures
        r == first_match(id_views(ids@), canonical_name(service)),
{
    let pattern = service.package_id_pattern();
    let ghost name = canonical_name(service);
    let ghost all = id_views(ids@);
    let mut i: usize = 0;
    assert(all.subrange(0, all.len() as int) =~= all);
    while i < ids.len()
        invariant
            name == canonical_name(service),
            pattern@ == name,
            all == id_views(ids@),
            i <= ids@.len(),
            first_match(all, name) == first_match(all.subrange(i as int, all.len() as int), name),
        decreases ids@.len() - i,
    {
        let ghost rest = all.subrange(i as int, all.len() as int);
        assert(rest[0] == ids@[i as int]@);
        assert(rest.drop_first() =~= all.subrange(i + 1, all.len() as int));
        match pattern.try_match(ids[i].as_str()) {
            Some(v) => {
                proof {
                    assert(has_version(rest[0], name, v));
                    let w = choose|w: Version| has_version(rest[0], name, w);
                    lemma_version_unique(rest[0], name, v, w);
                    assert(first_match(rest, name) == ResolvedVersion::Exact(w));
                }
                return ResolvedVersion::Exact(v);
            },
            None => {},
        }
        i = i + 1;
    }
    assert(all.subrange(i as int, all.len() as int).len() == 0);
    ResolvedVersion::Latest
}

/// Where no identifier matches the pattern, the graph empty included, the
/// result is the latest published version.
pub proof fn lemma_resolve_latest(ids: Seq<Seq<char>>, name: Seq<char>)
    requires
        forall|i: int| 0 <= i < ids.len() ==> !is_package_id(#[trigger] ids[i], name),
    ensures
        first_match(ids, name) == ResolvedVersion::Latest,
    decreases ids.len(),
{
    if ids.len() > 0 {
        assert forall|v: Version| !has_version(ids[0], name, v) by {
            assert(!is_package_id(ids[0], name));
        }
        assert forall|i: int| 0 <= i < ids.drop_first().len() implies !is_package_id(
            #[trigger] ids.drop_first()[i],
            name,
        ) by {
            assert(ids.drop_first()[i] == ids[i + 1]);
        }
        lemma_resolve_latest(ids.drop_first(), name);
    }
}

/// Where exactly one identifier matches the pattern, its version is the result,
/// wherever it stands among the others.
pub proof fn lemma_resolve_single_match(ids: Seq<Seq<char>>, name: Seq<char>, i: int, v: Version)
    requires
        0 <= i < ids.len(),
        has_version(ids[i], name, v),
        forall|j: int| 0 <= j < ids.len() && j != i ==> !is_package_id(#[trigger] ids[j], name),
    ensures
        first_match(ids, name) == ResolvedVersion::Exact(v),
    decreases ids.len(),
{
    if i == 0 {
        let w = choose|w: Version| has_version(ids[0], name, w);
        lemma_version_unique(ids[0], name, v, w);
    } else {
        assert forall|w: Version| !has_version(ids[0], name, w) by {
            assert(!is_package_id(ids[0], name));
        }
        let rest = ids.drop_first();
        assert(rest[i - 1] == ids[i]);
        assert forall|j: int| 0 <= j < rest.len() && j != i - 1 implies !is_package_id(
            #[trigger] rest[j],
            name,
        ) by {
            assert(rest[j] == ids[j + 1]);
        }
        lemma_resolve_single_match(rest, name, i - 1, v);
    }
}

} // verus!
