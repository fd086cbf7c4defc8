use dataforge_compute::error::UdfError;
use dataforge_compute::providers::{
    register_builtin_providers, BuiltinProvider, BuiltinUdf, CoreProvider, MovingAverageUdf, PetrophysicsProvider,
};
use dataforge_compute::registry::{infos_in_category, infos_matching, Udf, UdfInfo, UdfProvider, UdfRegistry};
use dataforge_compute::types::UdfMetadata;

struct TestProvider;

impl UdfProvider<BuiltinUdf> for TestProvider {
    fn id(&self) -> String {
        "test".to_string()
    }
    fn name(&self) -> String {
        "Test Provider".to_string()
    }
    fn version(&self) -> String {
        "0.1.0".to_string()
    }
    fn description(&self) -> String {
        "Test provider for unit tests".to_string()
    }
    fn load_udfs(&self) -> Vec<BuiltinUdf> {
        Vec::new()
    }
}

struct Twin(&'static str);

impl Udf for Twin {
    fn id(&self) -> String {
        self.0.to_string()
    }
    fn metadata(&self) -> UdfMetadata {
        UdfMetadata {
            name: "Twin".to_string(),
            category: "Test".to_string(),
            description: "test".to_string(),
            documentation: None,
            version: "1".to_string(),
            tags: vec![],
        }
    }
}

struct TwinProvider(&'static str, Vec<&'static str>, bool);

impl UdfProvider<Twin> for TwinProvider {
    fn id(&self) -> String {
        self.0.to_string()
    }
    fn name(&self) -> String {
        "Twins".to_string()
    }
    fn version(&self) -> String {
        "1".to_string()
    }
    fn description(&self) -> String {
        "twins".to_string()
    }
    fn load_udfs(&self) -> Vec<Twin> {
        self.1.iter().map(|s| Twin(s)).collect()
    }
    fn is_available(&self) -> Result<(), UdfError> {
        if self.2 {
            Ok(())
        } else {
            Err(UdfError::ProviderNotAvailable("missing library".to_string()))
        }
    }
}

#[test]
fn test_registry_new() {
    let registry = UdfRegistry::<TestProvider, BuiltinUdf>::new();
    assert_eq!(registry.provider_count(), 0);
    assert_eq!(registry.udf_count(), 0);
}

#[test]
fn test_register_provider() {
    let mut registry = UdfRegistry::<TestProvider, BuiltinUdf>::new();
    let provider = TestProvider;

    registry.register_provider(provider).unwrap();

    assert_eq!(registry.provider_count(), 1);
    assert!(registry.get_provider("test").is_some());
}

#[test]
fn test_duplicate_provider_error() {
    let mut registry = UdfRegistry::<TestProvider, BuiltinUdf>::new();
    let provider1 = TestProvider;
    let provider2 = TestProvider;

    registry.register_provider(provider1).unwrap();
    let result = registry.register_provider(provider2);

    assert!(result.is_err());
}

#[test]
fn duplicate_provider_error_names_the_id_and_keeps_the_registry() {
    let mut registry = UdfRegistry::<TwinProvider, Twin>::new();
    registry.register_provider(TwinProvider("p", vec!["a", "b"], true)).unwrap();
    let err = registry.register_provider(TwinProvider("p", vec!["c"], true)).unwrap_err();
    match err {
        UdfError::ProviderNotAvailable(m) => assert_eq!(m, "Provider 'p' is already registered"),
        _ => panic!("wrong error"),
    }
    assert_eq!(registry.provider_count(), 1);
    assert_eq!(registry.udf_count(), 2);
    assert!(registry.get_udf("p:c").is_none());
}

#[test]
fn same_udf_id_twice_in_one_provider_is_refused() {
    let mut registry = UdfRegistry::<TwinProvider, Twin>::new();
    let err = registry.register_provider(TwinProvider("p", vec!["a", "a"], true)).unwrap_err();
    match err {
        UdfError::ProviderNotAvailable(m) => assert_eq!(m, "UDF 'p:a' is already registered"),
        _ => panic!("wrong error"),
    }
    assert_eq!(registry.provider_count(), 0);
    assert_eq!(registry.udf_count(), 0);
}

#[test]
fn unavailable_provider_is_refused() {
    let mut registry = UdfRegistry::<TwinProvider, Twin>::new();
    let err = registry.register_provider(TwinProvider("p", vec!["a"], false)).unwrap_err();
    assert!(matches!(err, UdfError::ProviderNotAvailable(_)));
    assert_eq!(registry.provider_count(), 0);
}

#[test]
fn composite_ids_and_lookups() {
    let mut registry = UdfRegistry::<TwinProvider, Twin>::new();
    registry.register_provider(TwinProvider("p", vec!["a", "b"], true)).unwrap();
    registry.register_provider(TwinProvider("q", vec!["a"], true)).unwrap();
    assert_eq!(registry.udf_count(), 3);
    assert!(registry.get_udf("p:a").is_some());
    assert!(registry.get_udf("q:a").is_some());
    assert!(registry.get_udf("a").is_none());
    assert!(registry.get_udf_provider("q:a").is_some());
    let ids: Vec<String> = registry.list_udfs().into_iter().map(|u| u.full_id).collect();
    assert_eq!(ids, vec!["p:a", "p:b", "q:a"]);
    let of_p: Vec<String> = registry.list_provider_udfs("p").into_iter().map(|u| u.full_id).collect();
    assert_eq!(of_p, vec!["p:a", "p:b"]);
    let providers = registry.list_providers();
    assert_eq!(providers.len(), 2);
    assert_eq!(providers[0].id, "p");
    assert_eq!(providers[0].udf_count, 2);
    assert_eq!(providers[1].udf_count, 1);
}

#[test]
fn builtin_providers_register_six_udfs() {
    let mut registry = UdfRegistry::<BuiltinProvider, BuiltinUdf>::new();
    register_builtin_providers(&mut registry).unwrap();
    assert_eq!(registry.provider_count(), 2);
    assert_eq!(registry.udf_count(), 6);
    assert!(registry.get_udf("core:moving_average").is_some());
    assert!(registry.get_udf("petro:vshale_steiber").is_some());
    assert!(register_builtin_providers(&mut registry).is_err());
}

#[test]
fn category_and_search_filters() {
    let mut registry = UdfRegistry::<BuiltinProvider, BuiltinUdf>::new();
    register_builtin_providers(&mut registry).unwrap();
    let transforms: Vec<String> = registry.list_udfs_by_category("TRANSFORM").into_iter().map(|u| u.full_id).collect();
    assert_eq!(transforms, vec!["core:linear_scale", "core:depth_resample"]);
    let shale: Vec<String> = registry.search_udfs("Shale").into_iter().map(|u| u.full_id).collect();
    assert_eq!(shale, vec!["petro:vshale_linear", "petro:vshale_clavier", "petro:vshale_steiber"]);
    let smooth: Vec<String> = registry.search_udfs("noise").into_iter().map(|u| u.full_id).collect();
    assert_eq!(smooth, vec!["core:moving_average"]);
    assert!(registry.search_udfs("no such thing").is_empty());
}

#[test]
fn core_test_provider_loads_all_udfs() {
    let provider = CoreProvider::new();
    let udfs = provider.load_udfs();

    assert_eq!(udfs.len(), 3);

    let ids: Vec<_> = udfs.iter().map(|u| u.id()).collect();
    assert!(ids.contains(&"moving_average".to_string()));
    assert!(ids.contains(&"linear_scale".to_string()));
    assert!(ids.contains(&"depth_resample".to_string()));
}

#[test]
fn petrophysics_test_provider_loads_all_udfs() {
    let provider = PetrophysicsProvider::new();
    let udfs = provider.load_udfs();

    assert_eq!(udfs.len(), 3);

    let ids: Vec<_> = udfs.iter().map(|u| u.id()).collect();
    assert!(ids.contains(&"vshale_linear".to_string()));
    assert!(ids.contains(&"vshale_clavier".to_string()));
    assert!(ids.contains(&"vshale_steiber".to_string()));
}

#[test]
fn udf_metadata_is_reported() {
    let m = MovingAverageUdf::new().metadata();
    assert_eq!(m.name, "Moving Average");
    assert_eq!(m.category, "Smoothing");
    assert_eq!(m.tags, vec!["smooth", "filter", "average", "noise"]);
    assert_eq!(CoreProvider::new().version(), "0.1.0");
}

fn info(id: &str, name: &str, category: &str, description: &str, tags: &[&str]) -> UdfInfo {
    UdfInfo {
        full_id: id.to_string(),
        provider_id: "p".to_string(),
        name: name.to_string(),
        category: category.to_string(),
        description: description.to_string(),
        version: "1".to_string(),
        tags: tags.iter().map(|t| t.to_string()).collect(),
    }
}

#[test]
fn summary_filters_keep_order() {
    let infos = vec![
        info("p:a", "Alpha", "Smoothing", "first", &["x"]),
        info("p:b", "Beta", "smoothing", "second", &["Gamma"]),
        info("p:c", "Gamma Ray Tool", "Transform", "third", &[]),
    ];
    let ids = |v: Vec<UdfInfo>| v.into_iter().map(|u| u.full_id).collect::<Vec<_>>();
    assert_eq!(ids(infos_in_category(infos.clone(), "SMOOTHING")), vec!["p:a", "p:b"]);
    assert_eq!(ids(infos_matching(infos.clone(), "GAMMA")), vec!["p:b", "p:c"]);
    assert_eq!(ids(infos_matching(infos.clone(), "SECOND")), vec!["p:b"]);
    assert!(infos_matching(infos, "zzz").is_empty());
}
