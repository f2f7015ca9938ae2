//! The metadata of the init packages: the id of each and the packages it
//! depends on.

use crate::creators::PackageCreator;
use crate::id::{
    id_at, lemma_ids_ascend, lemma_small_ids_fit, PackageId, PackageIdGenerator, PackageType,
};
use crate::name::{Name, NAME_COUNT};
use crate::name_map::{is_total, NameMap};
use vstd::prelude::*;

verus! {

/// What the scheduler of package runs knows of a package.
#[derive(Debug, Clone, PartialEq, Eq)]
pub struct PackageMetadata {
    pub id: PackageId,
    pub dependencies: Vec<Name>,
}

/// The id of an init package: the ids of the init type are handed out in
/// enumeration order.
pub open spec fn init_id(name: Name) -> PackageId {
    PackageId(id_at(PackageType::Init, name.position() as nat) as usize)
}

/// Whether the package `name` may declare `dependencies`.
pub open spec fn declares<C: PackageCreator>(name: Name, dependencies: Vec<Name>) -> bool {
    call_ensures(C::dependencies, (name,), dependencies)
}

/// The ids of the init packages.
pub fn init_package_ids() -> (ids: NameMap<PackageId>)
    ensures
        is_total(ids@),
        forall|name: Name| #[trigger] ids@[name] == init_id(name),
{
    let mut generator = PackageIdGenerator::new(PackageType::Init);
    let mut ids: NameMap<PackageId> = NameMap::new();
    let mut i: usize = 0;
    while i < NAME_COUNT
        invariant
            i <= NAME_COUNT,
            generator.package_type() == PackageType::Init,
            generator.issued() == i,
            forall|name: Name| name.position() < i ==> #[trigger] ids@.dom().contains(name),
            forall|name: Name| #[trigger] ids@.dom().contains(name) ==> ids@[name] == init_id(name),
        decreases NAME_COUNT - i,
    {
        let name = match Name::from_index(i) {
            Some(name) => name,
            None => vstd::pervasive::unreached(),
        };
        proof {
            lemma_small_ids_fit(PackageType::Init, i as nat);
        }
        let id = generator.next();
        ids.insert(name, id);
        i = i + 1;
    }
    proof {
        assert forall|name: Name| ids@.dom().contains(name) by {
            assert(name.position() < NAME_COUNT);
        }
        assert forall|name: Name| #[trigger] ids@[name] == init_id(name) by {
            assert(ids@.dom().contains(name));
        }
    }
    ids
}

/// The metadata of every init package.
///
/// The ids are those of the init type in enumeration order, whatever the
/// packages declare; the dependencies of each package are the list that the
/// package declares, unchanged.
pub fn metadata<C: PackageCreator>() -> (all: NameMap<PackageMetadata>)
    ensures
        is_total(all@),
        forall|name: Name| (#[trigger] all@[name]).id == init_id(name),
        forall|name: Name| declares::<C>(name, (#[trigger] all@[name]).dependencies),
{
    let mut generator = PackageIdGenerator::new(PackageType::Init);
    let mut all: NameMap<PackageMetadata> = NameMap::new();
    let mut i: usize = 0;
    while i < NAME_COUNT
        invariant
            i <= NAME_COUNT,
            generator.package_type() == PackageType::Init,
            generator.issued() == i,
            forall|name: Name| name.position() < i ==> #[trigger] all@.dom().contains(name),
            forall|name: Name| #[trigger]
                all@.dom().contains(name) ==> all@[name].id == init_id(name) && declares::<C>(
                    name,
                    all@[name].dependencies,
                ),
        decreases NAME_COUNT - i,
    {
        let name = match Name::from_index(i) {
            Some(name) => name,
            None => vstd::pervasive::unreached(),
        };
        proof {
            lemma_small_ids_fit(PackageType::Init, i as nat);
        }
        let id = generator.next();
        let dependencies = C::dependencies(name);
        all.insert(name, PackageMetadata { id, dependencies });
        i = i + 1;
    }
    proof {
        assert forall|name: Name| all@.dom().contains(name) by {
            assert(name.position() < NAME_COUNT);
        }
        assert forall|name: Name| (#[trigger] all@[name]).id == init_id(name) && declares::<C>(
            name,
            all@[name].dependencies,
        ) by {
            assert(all@.dom().contains(name));
        }
    }
    all
}

/// No two init packages have the same id.
pub proof fn lemma_init_ids_differ(a: Name, b: Name)
    requires
        a != b,
    ensures
        init_id(a) != init_id(b),
{
    lemma_small_ids_fit(PackageType::Init, a.position() as nat);
    lemma_small_ids_fit(PackageType::Init, b.position() as nat);
    if a.position() < b.position() {
        lemma_ids_ascend(PackageType::Init, a.position() as nat, b.position() as nat);
    } else {
        lemma_ids_ascend(PackageType::Init, b.position() as nat, a.position() as nat);
    }
}

} // verus!
