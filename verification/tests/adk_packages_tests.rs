use masterbooter::adk_packages::{
    get_all_packages, get_default_enabled_packages, get_required_packages,
    packages_in_install_order, resolve_dependency_order, PackageCategory,
};

#[test]
fn test_get_all_packages() {
    let packages = get_all_packages();
    assert!(!packages.is_empty());

    // WMI has no dependencies
    let wmi = packages.iter().find(|p| p.id == "wmi");
    assert!(wmi.is_some());
    assert!(wmi.unwrap().dependencies.is_empty());
}

#[test]
fn test_dependency_order() {
    let packages = get_all_packages();

    // PowerShell depends on WMI, NetFX, and Scripting
    let order = resolve_dependency_order(&["powershell".to_string()], &packages);

    let wmi_pos = order.iter().position(|x| x == "wmi");
    let ps_pos = order.iter().position(|x| x == "powershell");

    assert!(wmi_pos.is_some());
    assert!(ps_pos.is_some());
    assert!(wmi_pos.unwrap() < ps_pos.unwrap());
}

#[test]
fn test_default_packages() {
    let defaults = get_default_enabled_packages();

    assert!(defaults.contains(&"wmi".to_string()));
    assert!(defaults.contains(&"powershell".to_string()));
    assert!(defaults.contains(&"storage_wmi".to_string()));
}

#[test]
fn test_required_packages() {
    let required = get_required_packages();

    assert!(required.contains(&"wmi".to_string()));
    assert!(required.contains(&"powershell".to_string()));
}

#[test]
fn dependency_order_is_complete_and_respects_dependencies() {
    let packages = get_all_packages();
    let order = resolve_dependency_order(&["powershell".to_string()], &packages);
    // everything PowerShell needs, and nothing else
    let mut sorted = order.clone();
    sorted.sort();
    assert_eq!(sorted, vec!["netfx", "powershell", "scripting", "wmi"]);
    for p in &packages {
        if let Some(i) = order.iter().position(|x| x == p.id) {
            for d in p.dependencies {
                let j = order.iter().position(|x| x == d).unwrap();
                assert!(j < i, "{} must come before {}", d, p.id);
            }
        }
    }
}

#[test]
fn dependency_order_drops_unknown_packages() {
    let packages = get_all_packages();
    let order = resolve_dependency_order(&["no_such_package".to_string()], &packages);
    assert!(order.is_empty());
}

#[test]
fn install_order_of_defaults_holds_each_default_once() {
    let defaults = get_default_enabled_packages();
    let ordered = packages_in_install_order(&defaults);
    for id in &defaults {
        assert_eq!(ordered.iter().filter(|p| p.id == id.as_str()).count(), 1);
    }
}

#[test]
fn category_names_and_colors() {
    assert_eq!(PackageCategory::Core.display_name(), "Core Components");
    assert_eq!(PackageCategory::Input.display_name(), "Input & Peripherals");
    assert_eq!(PackageCategory::Core.color(), "#2DD4BF");
    assert_eq!(PackageCategory::Security.color(), "#EF4444");
}

#[test]
fn dependencies_come_before_the_packages_that_need_them() {
    let packages = get_all_packages();
    let order = resolve_dependency_order(&["dism_cmdlets".to_string()], &packages);
    assert_eq!(order, vec!["wmi", "netfx", "scripting", "powershell", "dism_cmdlets"]);
    let order = resolve_dependency_order(
        &["setup_client".to_string(), "hta".to_string(), "wmi".to_string()],
        &packages,
    );
    assert_eq!(order, vec!["setup", "setup_client", "wmi", "scripting", "hta"]);
}
