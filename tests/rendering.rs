use record_render::color::Color;
use record_render::indexed_list::IndexedList;
use record_render::layout::{render_city, render_complex, render_point};
use record_render::range::Range;
use record_render::record::render_record;

fn city(name: &str, lat: f32, lon: f32) -> String {
    let lat_text = format!("{:.3}", lat.abs());
    let lon_text = format!("{:.3}", lon.abs());
    render_city(name, &lat_text, lat < 0.0, &lon_text, lon < 0.0)
}

#[test]
fn range_renders_bounds_in_parentheses() {
    assert_eq!(Range::new(0, 14).render(), "(0, 14)");
    assert_eq!(Range::new(-300, 300).render(), "(-300, 300)");
    assert_eq!(Range::new(-3, 3).render(), "(-3, 3)");
}

#[test]
fn range_keeps_unordered_and_extreme_bounds() {
    assert_eq!(Range::new(5, -5).render(), "(5, -5)");
    assert_eq!(
        Range::new(i64::MIN, i64::MAX).render(),
        "(-9223372036854775808, 9223372036854775807)"
    );
}

#[test]
fn range_diagnostic_names_fields() {
    assert_eq!(Range::new(0, 14).diagnostic(), "Range { low: 0, high: 14 }");
    assert_eq!(Range::new(-7, 120).diagnostic(), "Range { low: -7, high: 120 }");
}

#[test]
fn list_renders_positions() {
    let list = IndexedList::new(vec![1, 2, 3, 4, 5]);
    assert_eq!(list.render(), "[0: 1, 1: 2, 2: 3, 3: 4, 4: 5]");
}

#[test]
fn empty_list_renders_brackets() {
    assert_eq!(IndexedList::new(vec![]).render(), "[]");
    assert_eq!(IndexedList::new(vec![]).diagnostic(), "IndexedList { elements: [] }");
}

#[test]
fn list_with_negative_and_extreme_values() {
    let list = IndexedList::new(vec![-1, i32::MIN, i32::MAX, 0]);
    assert_eq!(list.render(), "[0: -1, 1: -2147483648, 2: 2147483647, 3: 0]");
}

#[test]
fn list_positions_reach_two_digits() {
    let list = IndexedList::new(vec![7; 11]);
    assert_eq!(
        list.render(),
        "[0: 7, 1: 7, 2: 7, 3: 7, 4: 7, 5: 7, 6: 7, 7: 7, 8: 7, 9: 7, 10: 7]"
    );
}

#[test]
fn list_diagnostic_names_field() {
    let list = IndexedList::new(vec![1, 2, 3]);
    assert_eq!(list.diagnostic(), "IndexedList { elements: [1, 2, 3] }");
}

#[test]
fn color_renders_decimal_and_hex() {
    assert_eq!(Color::new(128, 255, 90).render(), "RGB(128, 255, 90) 0x80FF5A");
    assert_eq!(Color::new(0, 3, 254).render(), "RGB(0, 3, 254) 0x0003FE");
    assert_eq!(Color::new(0, 0, 0).render(), "RGB(0, 0, 0) 0x000000");
    assert_eq!(Color::new(255, 255, 255).render(), "RGB(255, 255, 255) 0xFFFFFF");
}

#[test]
fn color_diagnostic_names_fields() {
    assert_eq!(
        Color::new(128, 255, 90).diagnostic(),
        "Color { red: 128, green: 255, blue: 90 }"
    );
}

#[test]
fn city_renders_magnitudes_and_hemispheres() {
    assert_eq!(city("Dublin", 53.347778, -6.259722), "Dublin: 53.348° N 6.260° W");
    assert_eq!(city("Oslo", 59.95, 10.75), "Oslo: 59.950° N 10.750° E");
    assert_eq!(city("Vancouver", 49.25, -123.1), "Vancouver: 49.250° N 123.100° W");
}

#[test]
fn city_south_and_zero_coordinates() {
    assert_eq!(city("Sydney", -33.8688, 151.2093), "Sydney: 33.869° S 151.209° E");
    assert_eq!(city("Null Island", 0.0, 0.0), "Null Island: 0.000° N 0.000° E");
}

#[test]
fn complex_keeps_plus_before_negative_part() {
    let part = |v: f64| format!("{}", v);
    assert_eq!(render_complex(&part(3.3), &part(7.2)), "3.3 + 7.2i");
    assert_eq!(render_complex(&part(3.3), &part(-1.0)), "3.3 + -1i");
}

#[test]
fn point_renders_braced_coordinates() {
    let x = format!("{}", 3.3f64);
    let y = format!("{}", 7.2f64);
    assert_eq!(render_point(&x, &y), "{x: 3.3, y: 7.2}");
}

#[test]
fn record_without_fields_is_its_name() {
    assert_eq!(render_record("Unit", &vec![]), "Unit");
}

#[test]
fn record_shows_every_field_and_value() {
    let fields = vec![
        ("x".to_string(), "3.3".to_string()),
        ("y".to_string(), "7.2".to_string()),
    ];
    assert_eq!(render_record("Point", &fields), "Point { x: 3.3, y: 7.2 }");
}

#[test]
fn diagnostics_hold_type_field_names_and_values() {
    let texts = [
        (Range::new(-3, 3).diagnostic(), vec!["Range", "low: -3", "high: 3"]),
        (Color::new(0, 3, 254).diagnostic(), vec!["Color", "red: 0", "green: 3", "blue: 254"]),
        (IndexedList::new(vec![4, -5]).diagnostic(), vec!["IndexedList", "elements: [4, -5]"]),
    ];
    for (text, parts) in texts.iter() {
        assert!(text.starts_with(parts[0]));
        for part in parts.iter() {
            assert!(text.contains(part), "{} lacks {}", text, part);
        }
    }
}

#[test]
fn rendering_twice_gives_the_same_text() {
    let range = Range::new(-300, 300);
    assert_eq!(range.render(), range.render());
    assert_eq!(range.diagnostic(), range.diagnostic());
    let color = Color::new(12, 34, 56);
    assert_eq!(color.render(), color.render());
    assert_eq!(color.diagnostic(), color.diagnostic());
    let list = IndexedList::new(vec![9, 8]);
    assert_eq!(list.render(), list.render());
    assert_eq!(list.diagnostic(), list.diagnostic());
    assert_eq!(list.elements, vec![9, 8]);
}
