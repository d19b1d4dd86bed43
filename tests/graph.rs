use cli_graphs::{graph, GraphConfig, GraphData, GraphError, GraphType, YDataRange};

fn gen_small_data() -> GraphData {
    let names: Vec<String> = vec!["apples", "oranges", "bananas", "grapes"].iter().map(|&s| s.to_owned()).collect();
    let values: Vec<i32> = vec![5, 3, 8, 2];
    let gd = GraphData::from((names, values));
    return gd;
}

fn show(lines: &[String]) {
    for line in lines {
        println!("{}", line);
    }
}

#[test]
fn bar_graph_single_figure_f64() {
    println!("\n\n");
    let gd = gen_small_data();
    let gc = GraphConfig::new().max_height(11);
    show(&graph(gd, gc, GraphType::Bar).unwrap());
}

#[test]
fn bar_graph_multi_figure_f64() {
    println!("\n\n");
    let names: Vec<String> = vec![
        "apples", "oranges", "bananas", "grapes", "apples", "oranges", "bananas", "grapes", "apples", "oranges",
        "bananas", "grapes",
    ]
    .iter()
    .map(|&s| s.to_owned())
    .collect();
    let values: Vec<i32> = (0..12).collect();
    let gd: GraphData = (names, values).into();
    let gd = gd.title("Lots of Fruit");
    let gc = GraphConfig::new().max_height(11).max_width(50);
    show(&graph(gd, gc, GraphType::Bar).unwrap());
}

#[test]
fn scatter_graph_single_figure_f64_default_scale() {
    println!("\n\n");
    let gd = gen_small_data();
    let gc = GraphConfig::new().max_height(11);
    show(&graph(gd, gc, GraphType::Scatter).unwrap());
}

#[test]
fn scatter_graph_single_figure_f64_zero2max() {
    println!("\n\n");
    let gd = gen_small_data();
    let gc = GraphConfig::new().max_height(11).y_range(YDataRange::Zero2Max);
    show(&graph(gd, gc, GraphType::Scatter).unwrap());
}

#[test]
fn scatter_graph_single_figure_f64_custom() {
    println!("\n\n");
    let gd = gen_small_data();
    let gc = GraphConfig::new().max_height(11).y_range(YDataRange::Custom(1, 15));
    show(&graph(gd, gc, GraphType::Scatter).unwrap());
}

fn dashes(n: usize) -> String {
    "-".repeat(n)
}

#[test]
fn bar_chart_of_four_fruits_is_exact() {
    let lines = graph(gen_small_data(), GraphConfig::new().max_height(11), GraphType::Bar).unwrap();
    let expected: Vec<String> = vec![
        "8   |       #                      ".to_string(),
        "    |       #                      ".to_string(),
        "6.5 |       #                      ".to_string(),
        "    |       #                      ".to_string(),
        "5   |       #               #      ".to_string(),
        "    |       #               #      ".to_string(),
        "3.5 |       #               #      ".to_string(),
        "    |       #       #       #      ".to_string(),
        "2   |#      #       #       #      ".to_string(),
        format!("    {}", dashes(49)),
        "     grapes bananas oranges apples ".to_string(),
    ];
    assert_eq!(lines, expected);
}

#[test]
fn bananas_reach_every_level_up_to_eight() {
    let lines = graph(gen_small_data(), GraphConfig::new().max_height(11), GraphType::Bar).unwrap();
    // single page: 9 value lines, the axis line and the label line
    assert_eq!(lines.len(), 11);
    let bananas_col = "    |".len() + 7;
    for line in &lines[0..9] {
        assert_eq!(line.chars().nth(bananas_col), Some('#'));
    }
    assert!(lines[8].starts_with("2 "));
}

#[test]
fn multi_page_bar_chart_is_exact() {
    let names: Vec<String> = ["apples", "oranges", "bananas", "grapes"].repeat(3).iter().map(|s| s.to_string()).collect();
    let values: Vec<i32> = (0..12).collect();
    let gd = GraphData::from((names, values)).title("Lots of Fruit");
    let lines = graph(gd, GraphConfig::new().max_height(11).max_width(50), GraphType::Bar).unwrap();
    assert_eq!(lines.len(), 23);
    assert_eq!(lines[0], "\tLots of Fruit");
    assert_eq!(lines[1], "11    |#                                            ");
    assert_eq!(lines[9], "0     |#      #       #       #      #      #       ");
    assert_eq!(lines[10], "      ----");
    assert_eq!(lines[11], "       grapes bananas oranges apples grapes bananas ");
    assert_eq!(lines[12], "11    |                                             ");
    assert_eq!(lines[17], "      |#                                            ");
    assert_eq!(lines[20], "0     |#       #      #      #       #       #      ");
    assert_eq!(lines[21], "      ----");
    assert_eq!(lines[22], "       oranges apples grapes bananas oranges apples ");
}

#[test]
fn scatter_chart_marks_one_level_per_column() {
    let lines = graph(gen_small_data(), GraphConfig::new().max_height(11), GraphType::Scatter).unwrap();
    let expected: Vec<&str> = vec![
        "8   |       #                      ",
        "    |                              ",
        "6.5 |                              ",
        "    |                              ",
        "5   |                       #      ",
        "    |                              ",
        "3.5 |                              ",
        "    |               #              ",
        "2   |#                             ",
    ];
    assert_eq!(&lines[0..9], &expected[..]);
}

#[test]
fn zero_to_max_scatter_is_exact() {
    let gc = GraphConfig::new().max_height(11).y_range(YDataRange::Zero2Max);
    let lines = graph(gen_small_data(), gc, GraphType::Scatter).unwrap();
    assert_eq!(lines[0], "8 |       #                      ");
    assert_eq!(lines[3], "  |                       #      ");
    assert_eq!(lines[6], "2 |#                             ");
    assert_eq!(lines[8], "0 |                              ");
    assert_eq!(lines[10], "   grapes bananas oranges apples ");
}

#[test]
fn custom_scatter_is_exact() {
    let gc = GraphConfig::new().max_height(11).y_range(YDataRange::Custom(1, 15));
    let lines = graph(gen_small_data(), gc, GraphType::Scatter).unwrap();
    assert_eq!(lines[0], "15   |                              ");
    assert_eq!(lines[4], "8    |       #                      ");
    assert_eq!(lines[6], "4.5  |                       #      ");
    assert_eq!(lines[7], "     |               #              ");
    assert_eq!(lines[8], "1    |#                             ");
}

#[test]
fn custom_range_below_values_renders_blank() {
    let names: Vec<String> = vec!["a".to_string(), "b".to_string(), "c".to_string()];
    let gd = GraphData::from((names, vec![1, 5, 9]));
    let gc = GraphConfig::new().max_height(11).y_range(YDataRange::Custom(2, 10));
    let lines = graph(gd, gc, GraphType::Scatter).unwrap();
    // columns are drawn c, b, a; the mark of a (value 1) is the fifth character after the bar
    for line in &lines[0..9] {
        let after_bar: Vec<char> = line.split('|').nth(1).unwrap().chars().collect();
        assert_eq!(after_bar[4], ' ');
    }
    assert!(lines[8].starts_with("2 "));
    assert!(lines[0].starts_with("10|"));
}

#[test]
fn inverted_custom_range_is_refused() {
    let gc = GraphConfig::new().max_height(11).y_range(YDataRange::Custom(10, 2));
    let r = graph(gen_small_data(), gc, GraphType::Bar);
    assert!(matches!(r, Err(GraphError::CustomRangeLowerValueLargerThanUpperValue)));
}

#[test]
fn width_thirty_nine_is_too_small() {
    let r = graph(gen_small_data(), GraphConfig::new().max_width(39), GraphType::Bar);
    assert!(matches!(r, Err(GraphError::GraphConfigMaxWidthTooSmall)));
}

#[test]
fn width_forty_is_accepted() {
    let r = graph(gen_small_data(), GraphConfig::new().max_width(40), GraphType::Bar);
    assert!(r.is_ok());
}

#[test]
fn empty_data_is_refused_first() {
    let gd = GraphData::from((Vec::<String>::new(), Vec::<i32>::new()));
    let r = graph(gd, GraphConfig::new().max_width(1).max_height(1), GraphType::Bar);
    assert!(matches!(r, Err(GraphError::NoData)));
}

#[test]
fn height_three_is_too_small() {
    let r = graph(gen_small_data(), GraphConfig::new().max_height(3), GraphType::Bar);
    assert!(matches!(r, Err(GraphError::GraphConfigMaxHeightTooSmall)));
    let r = graph(gen_small_data(), GraphConfig::new().max_height(4), GraphType::Bar);
    assert_eq!(r.unwrap().len(), 4);
}

#[test]
fn interpolated_scatter_is_unsupported() {
    let r = graph(gen_small_data(), GraphConfig::new(), GraphType::ScatterInterpolated);
    assert!(matches!(r, Err(GraphError::UnsupportedGraphType)));
}

#[test]
fn label_wider_than_a_page_is_refused() {
    let fits = "x".repeat(38);
    let r = graph(GraphData::from(vec![(fits, 1)]), GraphConfig::new().max_width(40), GraphType::Bar);
    assert!(r.is_ok());
    let too_wide = "x".repeat(39);
    let gd = GraphData::from(vec![("a".to_string(), 1), (too_wide, 2), ("b".to_string(), 3)]);
    let r = graph(gd, GraphConfig::new().max_width(40), GraphType::Bar);
    assert!(matches!(r, Err(GraphError::ColumnNameTooWideForGraphConfig)));
}

#[test]
fn scatter_value_on_a_level_is_drawn_there_only() {
    // levels 0, 1, ..., 8: the value 3 lies exactly on level 3
    let gd = GraphData::from(vec![("low".to_string(), 0), ("mid".to_string(), 3), ("top".to_string(), 8)]);
    let lines = graph(gd, GraphConfig::new().max_height(11), GraphType::Scatter).unwrap();
    // value lines top down are levels 8 .. 0; "mid" is the second column
    let mid_col = "8 |".len() + 4;
    for (row, line) in lines[0..9].iter().enumerate() {
        let level = 8 - row;
        let expected = if level == 3 { '#' } else { ' ' };
        assert_eq!(line.chars().nth(mid_col), Some(expected), "level {}", level);
    }
}

#[test]
fn plotting_symbol_is_used() {
    let gc = GraphConfig::new().max_height(11).plotting_symbol('*');
    let lines = graph(gen_small_data(), gc, GraphType::Bar).unwrap();
    assert_eq!(lines[0], "8   |       *                      ");
}

#[test]
fn single_value_dataset_draws_flat_scale() {
    let gd = GraphData::from(vec![("only".to_string(), 4)]);
    let lines = graph(gd, GraphConfig::new(), GraphType::Bar).unwrap();
    let expected = vec![
        "4|#    ".to_string(),
        " |#    ".to_string(),
        "4|#    ".to_string(),
        format!(" {}", dashes(74)),
        "  only ".to_string(),
    ];
    assert_eq!(lines, expected);
}

#[test]
fn graph_types_compare_by_kind() {
    assert!(GraphType::Bar == GraphType::Bar);
    assert!(GraphType::Bar != GraphType::Scatter);
}

#[test]
fn label_width_counts_bytes() {
    // thirteen euro signs are 39 bytes: with its space the column needs 40 of a budget of 39
    let wide = "€".repeat(13);
    let r = graph(GraphData::from(vec![(wide, 1)]), GraphConfig::new().max_width(40), GraphType::Bar);
    assert!(matches!(r, Err(GraphError::ColumnNameTooWideForGraphConfig)));
    // twelve take 36 bytes and fit, leaving 2; the mark is padded by 36 spaces
    let fits = "€".repeat(12);
    let lines = graph(GraphData::from(vec![(fits.clone(), 1)]), GraphConfig::new().max_width(40), GraphType::Bar).unwrap();
    assert_eq!(lines[0], format!("1|#{}", " ".repeat(36)));
    assert_eq!(lines[3], " --");
    assert_eq!(lines[4], format!("  {} ", fits));
}

#[test]
fn small_data_keeps_its_order() {
    let gd = gen_small_data();
    let labels: Vec<&str> = gd.data.iter().map(|p| p.label.as_str()).collect();
    let values: Vec<i32> = gd.data.iter().map(|p| p.value).collect();
    assert_eq!(labels, vec!["apples", "oranges", "bananas", "grapes"]);
    assert_eq!(values, vec![5, 3, 8, 2]);
    assert!(gd.data.iter().all(|p| p.colour.is_none()));
    assert!(gd.title.is_none());
}
