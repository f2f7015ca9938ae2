use init_packages::{
    init_package_ids, metadata, Error, Name, NameMap, PackageCreator, PackageId, PackageMetadata,
};

struct Chained;

impl PackageCreator for Chained {
    type Config = ();

    fn new(_name: Name, _experiment_config: &()) -> Result<Self, Error> {
        Ok(Chained)
    }

    fn dependencies(name: Name) -> Vec<Name> {
        match name {
            Name::Json => Vec::new(),
            Name::JsPy => vec![Name::Json],
        }
    }
}

struct Verbose;

impl PackageCreator for Verbose {
    type Config = ();

    fn new(_name: Name, _experiment_config: &()) -> Result<Self, Error> {
        Ok(Verbose)
    }

    fn dependencies(name: Name) -> Vec<Name> {
        match name {
            Name::Json => vec![Name::JsPy, Name::JsPy, Name::Json],
            Name::JsPy => Vec::new(),
        }
    }
}

const NAMES: [Name; 2] = [Name::Json, Name::JsPy];

fn order_by_dependencies(all: &NameMap<PackageMetadata>) -> Vec<Name> {
    let mut ordered: Vec<Name> = Vec::new();
    let mut progress = true;
    while progress {
        progress = false;
        for (name, package) in all.entries() {
            let ready = package.dependencies.iter().all(|d| ordered.contains(d));
            if ready && !ordered.contains(&name) {
                ordered.push(name);
                progress = true;
            }
        }
    }
    ordered
}

#[test]
fn ids_follow_enumeration_order() {
    let all = metadata::<Chained>();
    assert_eq!(all.get(&Name::Json).unwrap().id, PackageId(3));
    assert_eq!(all.get(&Name::JsPy).unwrap().id, PackageId(6));
    let ids = init_package_ids();
    assert_eq!(ids.entries(), vec![(Name::Json, &PackageId(3)), (Name::JsPy, &PackageId(6))]);
}

#[test]
fn ids_do_not_depend_on_what_packages_declare() {
    let chained = metadata::<Chained>();
    let verbose = metadata::<Verbose>();
    for name in NAMES {
        assert_eq!(chained.get(&name).unwrap().id, verbose.get(&name).unwrap().id);
        assert_eq!(Ok(chained.get(&name).unwrap().id), name.id());
    }
}

#[test]
fn ids_are_pairwise_distinct_and_reproducible() {
    let first = metadata::<Chained>();
    let second = metadata::<Chained>();
    assert_eq!(first.entries(), second.entries());
    assert_ne!(first.get(&Name::Json).unwrap().id, first.get(&Name::JsPy).unwrap().id);
}

#[test]
fn dependencies_are_stored_as_declared() {
    let all = metadata::<Verbose>();
    for name in NAMES {
        assert_eq!(all.get(&name).unwrap().dependencies, Verbose::dependencies(name));
    }
    assert_eq!(
        all.get(&Name::Json).unwrap().dependencies,
        vec![Name::JsPy, Name::JsPy, Name::Json]
    );
}

#[test]
fn every_name_has_metadata() {
    let all = metadata::<Chained>();
    let names: Vec<Name> = all.entries().into_iter().map(|(name, _)| name).collect();
    assert_eq!(names, vec![Name::Json, Name::JsPy]);
}

#[test]
fn scenario_js_py_depends_on_json() {
    let all = metadata::<Chained>();
    assert_eq!(all.get(&Name::Json).unwrap().dependencies, Vec::<Name>::new());
    assert_eq!(all.get(&Name::JsPy).unwrap().dependencies, vec![Name::Json]);
    let edges: Vec<(Name, Name)> = all
        .entries()
        .into_iter()
        .flat_map(|(name, package)| package.dependencies.iter().map(move |d| (name, *d)))
        .collect();
    assert_eq!(edges, vec![(Name::JsPy, Name::Json)]);
    assert_eq!(order_by_dependencies(&all), vec![Name::Json, Name::JsPy]);
}
