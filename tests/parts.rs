use cli_graphs::grid::level_label;
use cli_graphs::text::{digits_of, format_ratio};
use cli_graphs::{
    fmt_in_colour, handle_y_scaling, next_page, Colour, DataPoint, GraphConfig, GraphData, Layer,
    YDataRange, YScaleInformation,
};

fn points(labels: &[&str]) -> Vec<DataPoint> {
    labels.iter().enumerate().map(|(i, l)| DataPoint { label: l.to_string(), value: i as i32, colour: None }).collect()
}

fn labels_of(cols: &[DataPoint]) -> Vec<&str> {
    cols.iter().map(|c| c.label.as_str()).collect()
}

#[test]
fn min_to_max_scale_spans_the_values() {
    let data = GraphData::from(vec![("a".to_string(), 5), ("b".to_string(), -3), ("c".to_string(), 8)]).data;
    let s = handle_y_scaling(&data, &GraphConfig::new().max_height(11)).unwrap();
    assert_eq!((s.min, s.max, s.steps), (-3, 8, 8));
    assert_eq!(level_label(&s, 0).iter().collect::<String>(), "-3");
    assert_eq!(level_label(&s, 8).iter().collect::<String>(), "8");
    assert_eq!(level_label(&s, 1).iter().collect::<String>(), "-1.625");
}

#[test]
fn zero_to_max_origin_is_zero_with_negative_values() {
    let data = GraphData::from(vec![("a".to_string(), -7), ("b".to_string(), 4)]).data;
    let gc = GraphConfig::new().y_range(YDataRange::Zero2Max);
    let s = handle_y_scaling(&data, &gc).unwrap();
    assert_eq!((s.min, s.max, s.steps), (0, 4, 2));
}

#[test]
fn custom_scale_keeps_its_bounds() {
    let data = GraphData::from(vec![("a".to_string(), 1), ("b".to_string(), 5), ("c".to_string(), 9)]).data;
    let gc = GraphConfig::new().max_height(11).y_range(YDataRange::Custom(2, 10));
    let s = handle_y_scaling(&data, &gc).unwrap();
    assert_eq!((s.min, s.max, s.steps), (2, 10, 8));
    assert_eq!(level_label(&s, 1).iter().collect::<String>(), "3");
    let gc = gc.y_range(YDataRange::Custom(10, 2));
    assert!(handle_y_scaling(&data, &gc).is_err());
}

#[test]
fn page_takes_columns_from_the_back() {
    // widths with their spaces: 12 each; a budget of 39 takes three
    let mut remaining = points(&["first-label", "second-labl", "third-label", "fourth-labl", "fifth-label"]);
    let page = next_page(&mut remaining, 40);
    assert_eq!(labels_of(&page.columns), vec!["fifth-label", "fourth-labl", "third-label"]);
    assert_eq!(page.leftover, 3);
    assert_eq!(labels_of(&remaining), vec!["first-label", "second-labl"]);
    let page = next_page(&mut remaining, 40);
    assert_eq!(labels_of(&page.columns), vec!["second-labl", "first-label"]);
    assert_eq!(page.leftover, 15);
    assert!(remaining.is_empty());
}

#[test]
fn pages_hold_every_column_once() {
    let names: Vec<String> = (0..30).map(|i| format!("column{}", i)).collect();
    let all = points(&names.iter().map(|s| s.as_str()).collect::<Vec<_>>());
    let mut remaining = all.clone();
    let mut seen: Vec<String> = Vec::new();
    let mut pages = 0;
    while !remaining.is_empty() {
        let page = next_page(&mut remaining, 45);
        assert!(!page.columns.is_empty());
        seen.extend(page.columns.iter().map(|c| c.label.clone()));
        pages += 1;
    }
    assert!(pages > 1);
    let mut expected: Vec<String> = names.clone();
    expected.reverse();
    assert_eq!(seen, expected);
}

#[test]
fn too_wide_column_gives_empty_page() {
    let mut remaining = points(&["short", "this-label-is-far-too-wide-for-a-page-of-forty"]);
    let page = next_page(&mut remaining, 40);
    assert!(page.columns.is_empty());
    assert_eq!(page.leftover, 39);
    assert_eq!(remaining.len(), 2);
}

#[test]
fn ratios_are_written_to_thousandths() {
    let text = |n: i128, d: usize| format_ratio(n, d).iter().collect::<String>();
    assert_eq!(text(0, 1), "0");
    assert_eq!(text(7, 2), "3.5");
    assert_eq!(text(10, 4), "2.5");
    assert_eq!(text(-1, 3), "-0.333");
    assert_eq!(text(-1, 3000), "0");
    assert_eq!(text(2, 3), "0.666");
    assert_eq!(text(1, 100), "0.01");
    assert_eq!(text(123456, 1), "123456");
    assert_eq!(digits_of(907).iter().collect::<String>(), "907");
}

#[test]
fn colour_codes_are_sgr_sequences() {
    assert_eq!(Colour::Green.to_code(Layer::ForeGround), "\x1B[32m");
    assert_eq!(Colour::Orange.to_code(Layer::Background), "\x1B[43m");
    assert_eq!(Colour::FallbackDefault.to_code(Layer::Background), "\x1B[49m");
    assert_eq!(fmt_in_colour("hi", Colour::Red, Layer::ForeGround), "\x1B[31mhi\x1B[39m");
}

#[test]
fn test_colour() {
    println!(
        "{}{}{}",
        Colour::Green.to_code(Layer::ForeGround),
        "hello world!",
        Colour::FallbackDefault.to_code(Layer::ForeGround)
    );
}

#[test]
fn test_rainbow() {
    let colours = [Colour::Red, Colour::Orange, Colour::Green, Colour::Blue, Colour::Cyan, Colour::Magenta];
    let mut line = String::new();
    for (index, character) in "rainbow\n".to_owned().chars().enumerate() {
        let current_colour = colours[index % colours.len()];
        line.push_str(&fmt_in_colour(&character.to_string(), current_colour, Layer::ForeGround));
    }
    println!("{}", line);
}

#[test]
fn config_builders_set_one_field_each() {
    let gc = GraphConfig::new();
    assert_eq!(gc.get_max_width(), 80);
    assert_eq!(gc.get_max_height(), 5);
    assert!(matches!(gc.get_y_range(), YDataRange::Min2Max));
    assert_eq!(gc.get_plotting_symbol(), '#');
    let gc = gc.max_width(120).max_height(20).y_range(YDataRange::Custom(-1, 1)).plotting_symbol('o');
    assert_eq!(gc.get_max_width(), 120);
    assert_eq!(gc.get_max_height(), 20);
    assert!(matches!(gc.get_y_range(), YDataRange::Custom(-1, 1)));
    assert_eq!(gc.get_plotting_symbol(), 'o');
    let d = GraphConfig::default();
    assert_eq!((d.max_width, d.max_height, d.graph_symbol), (80, 5, '#'));
}

#[test]
fn datasets_convert_from_columns_and_pairs() {
    let gd = GraphData::from((vec!["a".to_string(), "b".to_string(), "c".to_string()], vec![1, 2]));
    assert_eq!(labels_of(&gd.data), vec!["a", "b"]);
    assert!(gd.title.is_none());
    let gd = GraphData::from((vec!["a".to_string(), "b".to_string()], vec![1, 2], vec![Colour::Blue]));
    assert_eq!(gd.data.len(), 1);
    assert!(matches!(gd.data[0].colour, Some(Colour::Blue)));
    let gd: GraphData = vec![("x".to_string(), 4, Colour::Cyan), ("y".to_string(), 5, Colour::Black)].into();
    assert_eq!(gd.data.iter().map(|p| p.value).collect::<Vec<_>>(), vec![4, 5]);
    let gd: GraphData = vec![("x".to_string(), 4)].into();
    let (data, title) = gd.title("Totals").split();
    assert_eq!(data.len(), 1);
    assert_eq!(data[0].label, "x");
    assert_eq!(title.as_deref(), Some("Totals"));
}

#[test]
fn level_label_writes_whole_levels() {
    let s = YScaleInformation { min: 0, max: 8, steps: 8 };
    assert_eq!(level_label(&s, 3).iter().collect::<String>(), "3");
}

#[test]
fn custom_scale_needs_no_data() {
    let gc = GraphConfig::new().max_height(7).y_range(YDataRange::Custom(-2, 2));
    let s = handle_y_scaling(&Vec::new(), &gc).unwrap();
    assert_eq!((s.min, s.max, s.steps), (-2, 2, 4));
    let gc = gc.y_range(YDataRange::Custom(3, 3));
    assert!(handle_y_scaling(&Vec::new(), &gc).is_ok());
    let gc = gc.y_range(YDataRange::Custom(3, 2));
    assert!(handle_y_scaling(&Vec::new(), &gc).is_err());
}

#[test]
fn page_budget_counts_label_bytes() {
    // "ééééé" is 10 bytes, so each column takes 11
    let mut remaining = points(&["ééééé", "ééééé", "ééééé", "ééééé"]);
    let page = next_page(&mut remaining, 40);
    assert_eq!(page.columns.len(), 3);
    assert_eq!(page.leftover, 6);
    assert_eq!(remaining.len(), 1);
}
