//! The registry of package creators: published once, read-only afterwards.

use crate::error::Error;
use crate::name::{name_at, Name, NAME_COUNT};
use crate::name_map::{is_listing, is_total, NameMap};
use vstd::prelude::*;

verus! {

/// What a package brings to the dispatch core: how its creator is built from
/// the experiment configuration, and which packages it depends on.
///
/// The core hands the configuration on unchanged and promises nothing about
/// what an implementation returns.
pub trait PackageCreator: Sized {
    /// The experiment configuration that creators are built from.
    type Config;

    /// Builds the creator of the package `name`.
    fn new(name: Name, experiment_config: &Self::Config) -> Result<Self, Error>;

    /// The packages that the package `name` depends on, in the order in which
    /// it declares them.
    fn dependencies(name: Name) -> Vec<Name>;
}

/// Whether the constructor of `name` may answer `experiment_config` with
/// `creator`.
pub open spec fn constructs<C: PackageCreator>(
    experiment_config: &C::Config,
    name: Name,
    creator: C,
) -> bool {
    call_ensures(C::new, (name, experiment_config), Ok::<C, Error>(creator))
}

/// Whether the constructor of `name` may refuse `experiment_config` with
/// `error`.
pub open spec fn refuses<C: PackageCreator>(
    experiment_config: &C::Config,
    name: Name,
    error: Error,
) -> bool {
    call_ensures(C::new, (name, experiment_config), Err::<C, Error>(error))
}

/// Whether the constructors of the first `count` names, in enumeration
/// order, may all accept `experiment_config`.
pub open spec fn accepted_before<C: PackageCreator>(
    experiment_config: &C::Config,
    count: int,
) -> bool {
    forall|i: int|
        0 <= i < count ==> exists|creator: C|
            constructs(experiment_config, #[trigger] name_at(i), creator)
}

/// What a lookup in a registry finds.
pub open spec fn lookup<C>(registry: Option<Map<Name, C>>, name: Name) -> Result<C, Error> {
    match registry {
        None => Err(Error::NotInitialized),
        Some(creators) => if creators.dom().contains(name) {
            Ok(creators[name])
        } else {
            Err(Error::UnknownPackage(name))
        },
    }
}

/// What an attempt to publish answers.
pub open spec fn publish_result<C>(registry: Option<Map<Name, C>>) -> Result<(), Error> {
    if registry is Some {
        Err(Error::AlreadyInitialized)
    } else {
        Ok(())
    }
}

/// The registry after an attempt to publish `creators`.
pub open spec fn published<C>(registry: Option<Map<Name, C>>, creators: Map<Name, C>) -> Option<
    Map<Name, C>,
> {
    if registry is Some {
        registry
    } else {
        Some(creators)
    }
}

/// The creators of the init packages. The registry starts out empty, is
/// filled by the first successful publication, and never changes again.
#[derive(Debug)]
pub struct PackageCreators<C> {
    cell: Option<NameMap<C>>,
}

impl<C> View for PackageCreators<C> {
    type V = Option<Map<Name, C>>;

    /// The published creators, if any were published.
    closed spec fn view(&self) -> Option<Map<Name, C>> {
        match self.cell {
            Some(creators) => Some(creators@),
            None => None,
        }
    }
}

impl<C> PackageCreators<C> {
    /// A registry to which nothing was published.
    pub fn new() -> (registry: PackageCreators<C>)
        ensures
            registry@ is None,
    {
        PackageCreators { cell: None }
    }

    /// Whether creators were published.
    pub fn is_initialized(&self) -> (initialized: bool)
        ensures
            initialized == (self@ is Some),
    {
        self.cell.is_some()
    }

    /// Publishes `creators`, unless creators were published before: then the
    /// registry stays as it is and the attempt fails.
    pub fn publish(&mut self, creators: NameMap<C>) -> (r: Result<(), Error>)
        ensures
            r == publish_result(old(self)@),
            final(self)@ == published(old(self)@, creators@),
    {
        if self.cell.is_some() {
            Err(Error::AlreadyInitialized)
        } else {
            self.cell = Some(creators);
            Ok(())
        }
    }

    /// Builds the creator of every package from the experiment
    /// configuration, in enumeration order, and publishes them together.
    ///
    /// The first constructor that refuses ends the attempt with its error.
    /// Where all accept, the attempt succeeds if nothing was published
    /// before, and fails otherwise. A failed attempt leaves the registry as
    /// it was.
    pub fn initialize_for_experiment_run(&mut self, experiment_config: &C::Config) -> (r: Result<
        (),
        Error,
    >) where C: PackageCreator
        ensures
            old(self)@ is Some ==> r is Err,
            match r {
                Ok(()) => {
                    &&& old(self)@ is None
                    &&& final(self)@ matches Some(creators)
                    &&& is_total(creators)
                    &&& forall|name: Name| #[trigger]
                        constructs(experiment_config, name, creators[name])
                },
                Err(error) => {
                    &&& final(self)@ == old(self)@
                    &&& {
                        ||| exists|name: Name|
                            #[trigger] refuses::<C>(experiment_config, name, error)
                                && accepted_before::<C>(experiment_config, name.position())
                        ||| error == Error::AlreadyInitialized && old(self)@ is Some
                            && accepted_before::<C>(experiment_config, NAME_COUNT as int)
                    }
                },
            },
    {
        let mut creators: NameMap<C> = NameMap::new();
        let mut i: usize = 0;
        while i < NAME_COUNT
            invariant
                i <= NAME_COUNT,
                *self == *old(self),
                forall|name: Name| name.position() < i ==> #[trigger] creators@.dom().contains(name),
                forall|name: Name| #[trigger]
                    creators@.dom().contains(name) ==> constructs(
                        experiment_config,
                        name,
                        creators@[name],
                    ),
            decreases NAME_COUNT - i,
        {
            let name = match Name::from_index(i) {
                Some(name) => name,
                None => vstd::pervasive::unreached(),
            };
            proof {
                assert forall|j: int| 0 <= j < i implies exists|creator: C|
                    constructs(experiment_config, #[trigger] name_at(j), creator) by {
                    assert(creators@.dom().contains(name_at(j)));
                    assert(constructs(experiment_config, name_at(j), creators@[name_at(j)]));
                }
            }
            match C::new(name, experiment_config) {
                Ok(creator) => {
                    creators.insert(name, creator);
                },
                Err(error) => {
                    assert(accepted_before::<C>(experiment_config, name.position()));
                    assert(refuses::<C>(experiment_config, name, error));
                    return Err(error);
                },
            }
            i = i + 1;
        }
        proof {
            assert forall|name: Name| creators@.dom().contains(name) by {
                assert(name.position() < NAME_COUNT);
            }
            assert(is_total(creators@));
            assert forall|name: Name| #[trigger]
                constructs(experiment_config, name, creators@[name]) by {
                assert(creators@.dom().contains(name));
            }
            assert forall|j: int| 0 <= j < NAME_COUNT implies exists|creator: C|
                constructs(experiment_config, #[trigger] name_at(j), creator) by {
                assert(creators@.dom().contains(name_at(j)));
                assert(constructs(experiment_config, name_at(j), creators@[name_at(j)]));
            }
            assert(accepted_before::<C>(experiment_config, NAME_COUNT as int));
        }
        self.publish(creators)
    }

    /// The creator published under `name`.
    ///
    /// Fails where nothing was published yet, and where what was published
    /// holds no creator under `name`.
    pub fn get_checked(&self, name: &Name) -> (r: Result<&C, Error>)
        ensures
            match lookup(self@, *name) {
                Ok(creator) => r == Ok::<&C, Error>(&creator),
                Err(error) => r == Err::<&C, Error>(error),
            },
    {
        match &self.cell {
            None => Err(Error::NotInitialized),
            Some(creators) => match creators.get(name) {
                Some(creator) => Ok(creator),
                None => Err(Error::UnknownPackage(*name)),
            },
        }
    }

    /// The published creators with their names, in enumeration order.
    ///
    /// Fails where nothing was published yet.
    pub fn iter_checked(&self) -> (r: Result<Vec<(Name, &C)>, Error>)
        ensures
            self@ is None ==> r == Err::<Vec<(Name, &C)>, Error>(Error::NotInitialized),
            self@ matches Some(creators) ==> r matches Ok(list) && is_listing(list@, creators),
    {
        match &self.cell {
            None => Err(Error::NotInitialized),
            Some(creators) => Ok(creators.entries()),
        }
    }
}

/// Once creators for every name are published, a lookup of any name finds
/// the creator published under it, the same one at every lookup.
pub proof fn lemma_published_creators_are_found<C>(creators: Map<Name, C>, name: Name)
    requires
        is_total(creators),
    ensures
        publish_result(None::<Map<Name, C>>) == Ok::<(), Error>(()),
        published(None, creators) == Some(creators),
        lookup(Some(creators), name) == Ok::<C, Error>(creators[name]),
{
}

/// A second publication always fails, whatever it brings, and leaves what
/// was published first as it is.
pub proof fn lemma_second_publication_fails<C>(
    registry: Option<Map<Name, C>>,
    first: Map<Name, C>,
    second: Map<Name, C>,
)
    ensures
        publish_result(published(registry, first)) == Err::<(), Error>(Error::AlreadyInitialized),
        published(published(registry, first), second) == published(registry, first),
{
}

/// Before anything is published every lookup fails, and with the failure
/// that says so.
pub proof fn lemma_nothing_found_before_publication<C>(name: Name)
    ensures
        lookup(None::<Map<Name, C>>, name) == Err::<C, Error>(Error::NotInitialized),
{
}

/// A creator is found under the name it was published under and under no
/// other: a lookup answers from that name's entry alone.
pub proof fn lemma_lookup_reads_one_entry<C>(creators: Map<Name, C>, name: Name, other: Name, creator: C)
    requires
        name != other,
    ensures
        lookup(Some(creators.insert(other, creator)), name) == lookup(Some(creators), name),
        lookup(Some(creators.insert(name, creator)), name) == Ok::<C, Error>(creator),
{
}

} // verus!
