use lore_server::hooks::registry::HookFactory;
use lore_server::hooks::registry::HookRegistry;
use lore_server::hooks::registry::HookSettings;
use lore_server::hooks::traits::HookError;
use lore_server::hooks::traits::HookPoint;

#[derive(Debug)]
struct MockHook {
    name: &'static str,
    points: &'static [HookPoint],
}

struct MockHookFactory {
    name: &'static str,
    points: &'static [HookPoint],
    should_fail_config: bool,
    should_fail_init: bool,
}

impl MockHookFactory {
    fn new(name: &'static str) -> Self {
        Self {
            name,
            points: &[HookPoint::BranchPush],
            should_fail_config: false,
            should_fail_init: false,
        }
    }

    fn with_config_error(mut self) -> Self {
        self.should_fail_config = true;
        self
    }

    fn with_init_error(mut self) -> Self {
        self.should_fail_init = true;
        self
    }
}

impl HookFactory for MockHookFactory {
    type Hook = MockHook;

    fn name(&self) -> &'static str {
        self.name
    }

    fn create(&self, config: &toml::Value) -> Result<MockHook, HookError> {
        if self.should_fail_config {
            return Err(HookError::ConfigError {
                hook_name: self.name.to_string(),
                message: format!("Invalid config: {config:?}"),
            });
        }
        if self.should_fail_init {
            return Err(HookError::InitError {
                hook_name: self.name.to_string(),
                message: "Failed to initialize".to_string(),
            });
        }
        Ok(MockHook {
            name: self.name,
            points: self.points,
        })
    }
}

fn empty_config() -> toml::Value {
    toml::Value::Table(toml::map::Map::new())
}

fn settings(entries: &[(&str, bool)]) -> Vec<(String, HookSettings)> {
    entries
        .iter()
        .map(|(name, enabled)| {
            (
                name.to_string(),
                HookSettings {
                    enabled: *enabled,
                    config: empty_config(),
                },
            )
        })
        .collect()
}

#[test]
fn test_register_hook() {
    let mut registry = HookRegistry::new();
    registry.register_hook(MockHookFactory::new("test")).unwrap();

    let hooks = registry.list_hooks();
    assert_eq!(hooks.len(), 1);
    assert!(hooks.contains(&"test".to_string()));
}

#[test]
fn test_register_multiple_hooks() {
    let mut registry = HookRegistry::new();
    registry.register_hook(MockHookFactory::new("hook1")).unwrap();
    registry.register_hook(MockHookFactory::new("hook2")).unwrap();

    let hooks = registry.list_hooks();
    assert_eq!(hooks.len(), 2);
    assert!(hooks.contains(&"hook1".to_string()));
    assert!(hooks.contains(&"hook2".to_string()));
}

#[test]
fn register_duplicate_hook_is_refused() {
    let mut registry = HookRegistry::new();
    registry.register_hook(MockHookFactory::new("test")).unwrap();
    let err = registry.register_hook(MockHookFactory::new("test")).unwrap_err();
    assert!(err.to_string().contains("already registered"));
    assert_eq!(err.hook_name(), "test");
    assert_eq!(registry.list_hooks(), vec!["test".to_string()]);
}

#[test]
fn registering_keeps_earlier_factories_in_order() {
    let mut registry = HookRegistry::new();
    registry.register_hook(MockHookFactory::new("test")).unwrap();
    assert!(registry.has_hook("test"));
    assert!(!registry.has_hook("other"));
    registry.register_hook(MockHookFactory::new("other")).unwrap();
    assert_eq!(registry.list_hooks(), vec!["test".to_string(), "other".to_string()]);
    assert_eq!(registry.create_hook("test", &empty_config()).unwrap().name, "test");
    assert_eq!(registry.create_hook("other", &empty_config()).unwrap().name, "other");
}

#[test]
fn test_create_hook_success() {
    let mut registry = HookRegistry::new();
    registry.register_hook(MockHookFactory::new("test")).unwrap();

    let result = registry.create_hook("test", &empty_config());
    assert!(result.is_ok());
    let hook = result.unwrap();
    assert_eq!(hook.name, "test");
    assert_eq!(hook.points, &[HookPoint::BranchPush]);
}

#[test]
fn test_create_hook_not_found() {
    let mut registry = HookRegistry::new();
    registry.register_hook(MockHookFactory::new("other")).unwrap();

    let result = registry.create_hook("missing", &empty_config());

    match result {
        Err(HookError::ConfigError { hook_name, message }) => {
            assert_eq!(hook_name, "missing");
            assert!(message.contains("not found"));
            assert!(message.contains("other"));
            assert_eq!(message, "Hook 'missing' not found. Available hooks: [\"other\"]");
        }
        _ => panic!("Expected ConfigError"),
    }
}

#[test]
fn test_create_hook_config_error() {
    let mut registry = HookRegistry::new();
    registry
        .register_hook(MockHookFactory::new("test").with_config_error()).unwrap();

    let result = registry.create_hook("test", &empty_config());

    match result {
        Err(HookError::ConfigError { hook_name, .. }) => {
            assert_eq!(hook_name, "test");
        }
        _ => panic!("Expected ConfigError"),
    }
}

#[test]
fn test_create_hook_init_error() {
    let mut registry = HookRegistry::new();
    registry
        .register_hook(MockHookFactory::new("test").with_init_error()).unwrap();

    let result = registry.create_hook("test", &empty_config());

    match result {
        Err(HookError::InitError { hook_name, .. }) => {
            assert_eq!(hook_name, "test");
        }
        _ => panic!("Expected InitError"),
    }
}

#[test]
fn test_has_hook() {
    let mut registry = HookRegistry::new();
    registry.register_hook(MockHookFactory::new("test")).unwrap();

    assert!(registry.has_hook("test"));
    assert!(!registry.has_hook("nonexistent"));
}

#[test]
fn test_empty_registry() {
    let registry: HookRegistry<MockHookFactory> = HookRegistry::new();
    assert!(registry.list_hooks().is_empty());
    assert!(!registry.has_hook("anything"));
}

#[test]
fn test_registry_debug() {
    let mut registry = HookRegistry::new();
    registry.register_hook(MockHookFactory::new("hook1")).unwrap();
    registry.register_hook(MockHookFactory::new("hook2")).unwrap();

    let debug_str = registry.debug_text();
    assert!(debug_str.contains("hook1"));
    assert!(debug_str.contains("hook2"));
    assert_eq!(debug_str, "HookRegistry { hooks: [\"hook1\", \"hook2\"] }");
}

#[test]
fn test_create_enabled_hooks_empty() {
    let registry: HookRegistry<MockHookFactory> = HookRegistry::new();
    let settings: Vec<(String, HookSettings)> = Vec::new();

    let result = registry.create_enabled_hooks(&settings);
    assert!(result.is_ok());
    assert!(result.unwrap().is_empty());
}

#[test]
fn test_create_enabled_hooks_all_disabled() {
    let mut registry = HookRegistry::new();
    registry.register_hook(MockHookFactory::new("hook1")).unwrap();
    registry.register_hook(MockHookFactory::new("hook2")).unwrap();

    let settings = settings(&[("hook1", false), ("hook2", false)]);

    let result = registry.create_enabled_hooks(&settings).unwrap();
    assert!(result.is_empty());
}

#[test]
fn test_create_enabled_hooks_some_enabled() {
    let mut registry = HookRegistry::new();
    registry.register_hook(MockHookFactory::new("hook1")).unwrap();
    registry.register_hook(MockHookFactory::new("hook2")).unwrap();

    let settings = settings(&[("hook1", true), ("hook2", false)]);

    let result = registry.create_enabled_hooks(&settings).unwrap();
    assert_eq!(result.len(), 1);
    assert_eq!(result[0].0, "hook1");
}

#[test]
fn test_create_enabled_hooks_all_enabled() {
    let mut registry = HookRegistry::new();
    registry.register_hook(MockHookFactory::new("hook1")).unwrap();
    registry.register_hook(MockHookFactory::new("hook2")).unwrap();

    let settings = settings(&[("hook1", true), ("hook2", true)]);

    let result = registry.create_enabled_hooks(&settings).unwrap();
    assert_eq!(result.len(), 2);
}

#[test]
fn test_create_enabled_hooks_error_propagates() {
    let mut registry = HookRegistry::new();
    registry.register_hook(MockHookFactory::new("good")).unwrap();
    registry
        .register_hook(MockHookFactory::new("bad").with_init_error()).unwrap();

    let settings = settings(&[("good", true), ("bad", true)]);

    let result = registry.create_enabled_hooks(&settings);
    assert!(result.is_err());
    match result {
        Err(HookError::InitError { hook_name, message }) => {
            assert_eq!(hook_name, "bad");
            assert_eq!(message, "Failed to initialize");
        }
        _ => panic!("Expected the factory's InitError"),
    }
}

#[test]
fn test_create_enabled_hooks_missing_factory() {
    let registry: HookRegistry<MockHookFactory> = HookRegistry::new();

    let settings = settings(&[("nonexistent", true)]);

    let result = registry.create_enabled_hooks(&settings);
    assert!(result.is_err());
}

#[test]
fn test_hook_settings_default() {
    let settings = HookSettings::default();
    assert!(!settings.enabled);
    assert!(matches!(settings.config, toml::Value::Table(_)));
}

#[test]
fn enabled_hooks_keep_settings_order_and_skip_disabled() {
    let mut registry = HookRegistry::new();
    registry.register_hook(MockHookFactory::new("a")).unwrap();
    registry.register_hook(MockHookFactory::new("b")).unwrap();
    registry.register_hook(MockHookFactory::new("c")).unwrap();

    let settings = settings(&[("c", true), ("b", false), ("a", true)]);
    let names: Vec<String> = registry
        .create_enabled_hooks(&settings)
        .unwrap()
        .into_iter()
        .map(|(n, _)| n)
        .collect();
    assert_eq!(names, vec!["c".to_string(), "a".to_string()]);
}

#[test]
fn disabled_unknown_hook_is_not_an_error() {
    let registry: HookRegistry<MockHookFactory> = HookRegistry::new();
    let settings = settings(&[("ghost", false)]);
    assert!(registry.create_enabled_hooks(&settings).unwrap().is_empty());
}
