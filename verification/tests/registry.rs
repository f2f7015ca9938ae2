use init_packages::{Error, Name, NameMap, PackageCreator, PackageCreators};

#[derive(Debug, Clone, PartialEq, Eq)]
struct Config {
    run: u32,
    refused: Vec<Name>,
}

fn config(run: u32) -> Config {
    Config { run, refused: Vec::new() }
}

#[derive(Debug, PartialEq, Eq)]
struct Creator {
    name: Name,
    run: u32,
}

impl PackageCreator for Creator {
    type Config = Config;

    fn new(name: Name, experiment_config: &Config) -> Result<Self, Error> {
        if experiment_config.refused.contains(&name) {
            Err(Error::Configuration(name))
        } else {
            Ok(Creator { name, run: experiment_config.run })
        }
    }

    fn dependencies(_name: Name) -> Vec<Name> {
        Vec::new()
    }
}

const NAMES: [Name; 2] = [Name::Json, Name::JsPy];

#[test]
fn lookups_fail_before_initialization() {
    let registry: PackageCreators<Creator> = PackageCreators::new();
    assert!(!registry.is_initialized());
    for name in NAMES {
        assert_eq!(registry.get_checked(&name), Err(Error::NotInitialized));
    }
    assert_eq!(registry.iter_checked(), Err(Error::NotInitialized));
}

#[test]
fn every_name_is_found_after_initialization() {
    let mut registry: PackageCreators<Creator> = PackageCreators::new();
    assert_eq!(registry.initialize_for_experiment_run(&config(7)), Ok(()));
    assert!(registry.is_initialized());
    for name in NAMES {
        assert_eq!(registry.get_checked(&name), Ok(&Creator { name, run: 7 }));
    }
}

#[test]
fn repeated_lookups_return_the_same_creator() {
    let mut registry: PackageCreators<Creator> = PackageCreators::new();
    registry.initialize_for_experiment_run(&config(1)).unwrap();
    for name in NAMES {
        let first = registry.get_checked(&name).unwrap();
        let second = registry.get_checked(&name).unwrap();
        assert!(std::ptr::eq(first, second));
    }
    let json = registry.get_checked(&Name::Json).unwrap();
    let js_py = registry.get_checked(&Name::JsPy).unwrap();
    assert!(!std::ptr::eq(json, js_py));
}

#[test]
fn second_initialization_fails_and_changes_nothing() {
    let mut registry: PackageCreators<Creator> = PackageCreators::new();
    assert_eq!(registry.initialize_for_experiment_run(&config(1)), Ok(()));
    assert_eq!(
        registry.initialize_for_experiment_run(&config(1)),
        Err(Error::AlreadyInitialized)
    );
    assert_eq!(
        registry.initialize_for_experiment_run(&config(2)),
        Err(Error::AlreadyInitialized)
    );
    for name in NAMES {
        assert_eq!(registry.get_checked(&name), Ok(&Creator { name, run: 1 }));
    }
}

#[test]
fn refused_configuration_fails_initialization() {
    for refused in NAMES {
        let mut registry: PackageCreators<Creator> = PackageCreators::new();
        let bad = Config { run: 1, refused: vec![refused] };
        assert_eq!(
            registry.initialize_for_experiment_run(&bad),
            Err(Error::Configuration(refused))
        );
        assert!(!registry.is_initialized());
        assert_eq!(registry.get_checked(&Name::Json), Err(Error::NotInitialized));
        assert_eq!(registry.initialize_for_experiment_run(&config(3)), Ok(()));
        assert_eq!(registry.get_checked(&refused), Ok(&Creator { name: refused, run: 3 }));
    }
}

#[test]
fn first_refusal_in_enumeration_order_is_reported() {
    let mut registry: PackageCreators<Creator> = PackageCreators::new();
    let bad = Config { run: 1, refused: vec![Name::JsPy, Name::Json] };
    assert_eq!(
        registry.initialize_for_experiment_run(&bad),
        Err(Error::Configuration(Name::Json))
    );
}

#[test]
fn refusal_is_reported_before_an_earlier_publication() {
    let mut registry: PackageCreators<Creator> = PackageCreators::new();
    registry.initialize_for_experiment_run(&config(1)).unwrap();
    let bad = Config { run: 2, refused: vec![Name::JsPy] };
    assert_eq!(
        registry.initialize_for_experiment_run(&bad),
        Err(Error::Configuration(Name::JsPy))
    );
    assert_eq!(registry.get_checked(&Name::JsPy), Ok(&Creator { name: Name::JsPy, run: 1 }));
}

#[test]
fn iteration_lists_every_creator_in_enumeration_order() {
    let mut registry: PackageCreators<Creator> = PackageCreators::new();
    registry.initialize_for_experiment_run(&config(4)).unwrap();
    let json = Creator { name: Name::Json, run: 4 };
    let js_py = Creator { name: Name::JsPy, run: 4 };
    assert_eq!(registry.iter_checked(), Ok(vec![(Name::Json, &json), (Name::JsPy, &js_py)]));
    assert_eq!(registry.iter_checked(), registry.iter_checked());
}

#[test]
fn unknown_package_is_reported() {
    let mut partial: NameMap<Creator> = NameMap::new();
    partial.insert(Name::JsPy, Creator { name: Name::JsPy, run: 9 });
    let mut registry: PackageCreators<Creator> = PackageCreators::new();
    assert_eq!(registry.publish(partial), Ok(()));
    assert_eq!(registry.get_checked(&Name::Json), Err(Error::UnknownPackage(Name::Json)));
    assert_eq!(registry.get_checked(&Name::JsPy), Ok(&Creator { name: Name::JsPy, run: 9 }));
    let js_py = Creator { name: Name::JsPy, run: 9 };
    assert_eq!(registry.iter_checked(), Ok(vec![(Name::JsPy, &js_py)]));
}

#[test]
fn scenario_two_callers_race_to_publish() {
    let mut built: Vec<NameMap<Creator>> = Vec::new();
    for run in [1, 2] {
        let mut creators: NameMap<Creator> = NameMap::new();
        for name in NAMES {
            creators.insert(name, Creator::new(name, &config(run)).unwrap());
        }
        built.push(creators);
    }
    let mut registry: PackageCreators<Creator> = PackageCreators::new();
    let mut verdicts = Vec::new();
    for creators in built {
        verdicts.push(registry.publish(creators));
    }
    assert_eq!(verdicts, vec![Ok(()), Err(Error::AlreadyInitialized)]);
    for name in NAMES {
        let seen_by_winner = registry.get_checked(&name);
        let seen_by_loser = registry.get_checked(&name);
        assert_eq!(seen_by_winner, Ok(&Creator { name, run: 1 }));
        assert_eq!(seen_by_winner, seen_by_loser);
    }
}

#[test]
fn name_map_holds_one_value_per_name() {
    let mut map: NameMap<u32> = NameMap::new();
    assert!(!map.contains_key(&Name::Json));
    assert_eq!(map.get(&Name::Json), None);
    assert_eq!(map.entries(), Vec::<(Name, &u32)>::new());
    map.insert(Name::JsPy, 1);
    map.insert(Name::Json, 2);
    map.insert(Name::JsPy, 3);
    assert!(map.contains_key(&Name::Json));
    assert_eq!(map.get(&Name::Json), Some(&2));
    assert_eq!(map.get(&Name::JsPy), Some(&3));
    assert_eq!(map.entries(), vec![(Name::Json, &2), (Name::JsPy, &3)]);
}
