use m2s2_cli::utils::{to_kebab_case, to_pascal_case};

#[test]
fn pascal_from_kebab() {
    assert_eq!(to_pascal_case("hero-section"), "HeroSection");
}

#[test]
fn pascal_from_snake() {
    assert_eq!(to_pascal_case("my_card"), "MyCard");
}

#[test]
fn pascal_from_already_pascal() {
    assert_eq!(to_pascal_case("HeroSection"), "HeroSection");
}

#[test]
fn pascal_from_single_word() {
    assert_eq!(to_pascal_case("navbar"), "Navbar");
}

#[test]
fn kebab_from_pascal() {
    assert_eq!(to_kebab_case("HeroSection"), "hero-section");
}

#[test]
fn kebab_from_single_word() {
    assert_eq!(to_kebab_case("Navbar"), "navbar");
}

#[test]
fn kebab_from_multi_word() {
    assert_eq!(to_kebab_case("DataTableHeader"), "data-table-header");
}

#[test]
fn roundtrip_kebab_to_pascal_to_kebab() {
    let input = "feature-card";
    assert_eq!(to_kebab_case(&to_pascal_case(input)), input);
}

#[test]
fn roundtrip_holds_for_several_kebab_names() {
    for input in ["a", "user-profile", "data-table-header", "x1-y2"] {
        assert_eq!(to_kebab_case(&to_pascal_case(input)), input);
    }
}

#[test]
fn roundtrip_pascal_to_kebab_to_pascal() {
    for input in ["HeroSection", "A", "UserProfile2", "DataTableHeader", "X1Y2"] {
        assert_eq!(to_pascal_case(&to_kebab_case(input)), input);
    }
}
