use manycore_svg::{
    core_loads, RoutingTarget,
    binary_search_left_insertion_point, canvas_length, core_coordinates, decimal_string,
    generate_with_id, get_attribute_colour, get_connection_type, grid_position,
    missing_channel, missing_connection, missing_source_load, missing_source_loads,
    router_coordinates, AttributeConfiguration, ColourConfig, Configuration, ConnectionType,
    CoreRecord, Direction, DirectionType, ElementKind, FieldConfiguration, GridPosition,
    InformationGroup, InformationLayer, ProcessingInformation, RoutingConfiguration, SVGErrorKind,
    Style, TextAnchor, UpdateResult, BASE_STYLE, BORDER_ROUTERS_KEY, BORDER_STYLE,
    COORDINATES_KEY, ID_KEY, ROUTING_KEY, SVG,
};

fn colours() -> ColourConfig {
    ColourConfig {
        bounds: [10, 20, 30, 40],
        colours: [
            "c0".to_string(),
            "c1".to_string(),
            "c2".to_string(),
            "c3".to_string(),
        ],
    }
}

fn core_record(id: u8, attributes: &[(&str, &str)]) -> CoreRecord {
    CoreRecord {
        id,
        allocated_task: None,
        attributes: attributes
            .iter()
            .map(|(k, v)| (k.to_string(), v.to_string()))
            .collect(),
        router_attributes: Vec::new(),
    }
}

fn empty_configuration() -> Configuration {
    Configuration {
        core_config: AttributeConfiguration::new(),
        router_config: AttributeConfiguration::new(),
        channel_config: AttributeConfiguration::new(),
    }
}

fn grid_2x2(loads: [&str; 4]) -> (SVG, Vec<CoreRecord>) {
    let cores: Vec<CoreRecord> = (0..4u8)
        .map(|i| core_record(i, &[("load", loads[i as usize])]))
        .collect();
    let svg = SVG::from_architecture(&cores, 2, 2).ok().expect("2x2 grid");
    (svg, cores)
}

fn update(svg: &mut SVG, cores: &Vec<CoreRecord>, configuration: &Configuration) -> UpdateResult {
    match svg.update_configurable_information(cores, configuration, &None) {
        Ok(u) => u,
        Err(_) => panic!("reconfiguration failed"),
    }
}

#[test]
fn bucket_below_first_bound() {
    assert_eq!(binary_search_left_insertion_point(&[10, 20, 30, 40], 5), 0);
    assert_eq!(binary_search_left_insertion_point(&[10, 20, 30, 40], 0), 0);
}

#[test]
fn bucket_at_or_above_last_bound() {
    assert_eq!(binary_search_left_insertion_point(&[10, 20, 30, 40], 40), 3);
    assert_eq!(binary_search_left_insertion_point(&[10, 20, 30, 40], u64::MAX), 3);
}

#[test]
fn bucket_between_bounds() {
    let b = [10, 20, 30, 40];
    assert_eq!(binary_search_left_insertion_point(&b, 10), 0);
    assert_eq!(binary_search_left_insertion_point(&b, 19), 0);
    assert_eq!(binary_search_left_insertion_point(&b, 20), 1);
    assert_eq!(binary_search_left_insertion_point(&b, 25), 1);
    assert_eq!(binary_search_left_insertion_point(&b, 30), 2);
    assert_eq!(binary_search_left_insertion_point(&b, 39), 2);
}

#[test]
fn bucket_equal_bounds_take_the_first() {
    assert_eq!(binary_search_left_insertion_point(&[5, 5, 10, 20], 5), 0);
    assert_eq!(binary_search_left_insertion_point(&[1, 2, 5, 5], 5), 2);
}

#[test]
fn grid_positions_recover_index() {
    let (rows, columns) = (3u8, 4u8);
    let mut seen = Vec::new();
    for i in 0..(rows as usize * columns as usize) {
        let p = grid_position(i, rows, columns);
        assert_eq!(p.row as usize * columns as usize + p.column as usize, i);
        assert!(p.column < columns && p.row < rows);
        assert!(!seen.contains(&p));
        seen.push(p);
    }
    assert_eq!(grid_position(5, 3, 4), GridPosition { row: 1, column: 1 });
}

#[test]
fn box_coordinates() {
    let p = GridPosition { row: 1, column: 2 };
    assert_eq!(core_coordinates(p), (1 + 2 * 275, 76 + 275));
    assert_eq!(router_coordinates(p), (101 + 2 * 275, 1 + 275));
    assert_eq!(canvas_length(2), 452);
    assert_eq!(canvas_length(1), 177);
}

#[test]
fn decimal_text() {
    assert_eq!(decimal_string(0), "0");
    assert_eq!(decimal_string(7), "7");
    assert_eq!(decimal_string(18446744073709551615), "18446744073709551615");
}

#[test]
fn attribute_colour_of_numbers_only() {
    let c = colours();
    assert_eq!(get_attribute_colour(&c.bounds, &c.colours, &"25".to_string()), Some(&c.colours[1]));
    assert_eq!(get_attribute_colour(&c.bounds, &c.colours, &"+35".to_string()), Some(&c.colours[2]));
    assert_eq!(get_attribute_colour(&c.bounds, &c.colours, &"high".to_string()), None);
    assert_eq!(get_attribute_colour(&c.bounds, &c.colours, &"".to_string()), None);
    assert_eq!(get_attribute_colour(&c.bounds, &c.colours, &"-3".to_string()), None);
}

#[test]
fn fill_colours_end_to_end() {
    let (mut svg, cores) = grid_2x2(["5", "25", "40", "100"]);
    let mut configuration = empty_configuration();
    configuration
        .core_config
        .insert("load".to_string(), FieldConfiguration::Fill(colours()));
    let u = update(&mut svg, &cores, &configuration);
    assert_eq!(
        u.style,
        format!(
            "{}\n#core0 {{fill: c0;}}\n#core1 {{fill: c1;}}\n#core2 {{fill: c3;}}\n#core3 {{fill: c3;}}",
            BASE_STYLE
        )
    );
    assert_eq!(u.information_group.len(), 4);
    for layer in &u.information_group {
        assert!(layer.core_group.filter);
        assert!(layer.core_group.information.is_empty());
        assert!(!layer.router_group.filter);
        assert!(layer.coordinates.is_none());
    }
    assert_eq!(u.view_box, "0 0 452 452");
}

#[test]
fn identity_line_comes_first() {
    let cores = vec![CoreRecord {
        id: 7,
        allocated_task: Some(3),
        attributes: vec![("aaa".to_string(), "x".to_string())],
        router_attributes: Vec::new(),
    }];
    let mut svg = SVG::from_architecture(&cores, 1, 1).ok().expect("1x1 grid");
    let mut configuration = empty_configuration();
    configuration
        .core_config
        .insert("aaa".to_string(), FieldConfiguration::Text("A".to_string()));
    configuration
        .core_config
        .insert(ID_KEY.to_string(), FieldConfiguration::Text("ID".to_string()));
    let u = update(&mut svg, &cores, &configuration);
    let lines = &u.information_group[0].core_group.information;
    assert_eq!(lines.len(), 2);
    assert_eq!(lines[0].value, "ID: 7");
    assert_eq!((lines[0].x, lines[0].y), (2, 77));
    assert_eq!(lines[0].fill, "black");
    assert_eq!(lines[0].text_anchor, TextAnchor::Start);
    assert_eq!(lines[1].value, "A: x");
    assert_eq!((lines[1].x, lines[1].y), (2, 95));
}

#[test]
fn reconfiguration_is_idempotent() {
    let (mut svg, cores) = grid_2x2(["5", "oops", "40", "100"]);
    let mut configuration = empty_configuration();
    configuration.core_config.insert(
        "load".to_string(),
        FieldConfiguration::ColouredText("Load".to_string(), colours()),
    );
    configuration
        .core_config
        .insert(COORDINATES_KEY.to_string(), FieldConfiguration::Boolean(true));
    configuration
        .channel_config
        .insert(BORDER_ROUTERS_KEY.to_string(), FieldConfiguration::Boolean(true));
    let first = update(&mut svg, &cores, &configuration);
    let second = update(&mut svg, &cores, &configuration);
    assert_eq!(first.style, second.style);
    assert_eq!(first.view_box, second.view_box);
    assert_eq!(first.information_group.len(), second.information_group.len());
    for (a, b) in first.information_group.iter().zip(second.information_group.iter()) {
        let la: Vec<(u32, u32, String, String)> = a
            .core_group
            .information
            .iter()
            .map(|t| (t.x, t.y, t.fill.clone(), t.value.clone()))
            .collect();
        let lb: Vec<(u32, u32, String, String)> = b
            .core_group
            .information
            .iter()
            .map(|t| (t.x, t.y, t.fill.clone(), t.value.clone()))
            .collect();
        assert_eq!(la, lb);
        assert_eq!(
            a.coordinates.as_ref().map(|t| t.value.clone()),
            b.coordinates.as_ref().map(|t| t.value.clone())
        );
    }
}

#[test]
fn empty_configuration_gives_no_overlay() {
    let (mut svg, cores) = grid_2x2(["5", "25", "40", "100"]);
    let mut configuration = empty_configuration();
    configuration
        .core_config
        .insert("load".to_string(), FieldConfiguration::Fill(colours()));
    let u = update(&mut svg, &cores, &configuration);
    assert_eq!(u.information_group.len(), 4);
    let u = update(&mut svg, &cores, &empty_configuration());
    assert!(u.information_group.is_empty());
    assert!(svg.information_layers().is_empty());
    assert_eq!(u.style, BASE_STYLE);
    assert_eq!(u.view_box, "0 0 452 452");
}

#[test]
fn unparsable_fill_adds_no_rule() {
    let (mut svg, cores) = grid_2x2(["high", "25", "x1", "100"]);
    let mut configuration = empty_configuration();
    configuration
        .core_config
        .insert("load".to_string(), FieldConfiguration::Fill(colours()));
    let u = update(&mut svg, &cores, &configuration);
    assert_eq!(
        u.style,
        format!("{}\n#core1 {{fill: c1;}}\n#core3 {{fill: c3;}}", BASE_STYLE)
    );
    assert!(!u.information_group[0].core_group.filter);
    assert!(u.information_group[1].core_group.filter);
    assert!(!u.information_group[2].core_group.filter);
}

#[test]
fn unparsable_coloured_text_keeps_line() {
    let (mut svg, cores) = grid_2x2(["abc", "25", "5", "100"]);
    let mut configuration = empty_configuration();
    configuration.core_config.insert(
        "load".to_string(),
        FieldConfiguration::ColouredText("Load".to_string(), colours()),
    );
    let u = update(&mut svg, &cores, &configuration);
    let line = &u.information_group[0].core_group.information[0];
    assert_eq!(line.value, "Load: abc");
    assert_eq!(line.fill, "black");
    let line = &u.information_group[1].core_group.information[0];
    assert_eq!(line.value, "Load: 25");
    assert_eq!(line.fill, "c1");
    assert_eq!(u.style, BASE_STYLE);
}

#[test]
fn coordinates_label_and_router_text() {
    let mut cores: Vec<CoreRecord> = (0..4u8).map(|i| core_record(i, &[])).collect();
    cores[1].router_attributes = vec![("age".to_string(), "3".to_string())];
    let mut svg = SVG::from_architecture(&cores, 2, 2).ok().expect("2x2 grid");
    let mut configuration = empty_configuration();
    configuration
        .core_config
        .insert(COORDINATES_KEY.to_string(), FieldConfiguration::Boolean(true));
    configuration
        .router_config
        .insert("age".to_string(), FieldConfiguration::Text("Age".to_string()));
    let u = update(&mut svg, &cores, &configuration);
    let label = u.information_group[1].coordinates.as_ref().expect("label");
    assert_eq!(label.value, "(1,2)");
    assert_eq!((label.x, label.y), (1 + 275 + 50, 76 + 100));
    assert_eq!(label.text_anchor, TextAnchor::Middle);
    let router = &u.information_group[1].router_group.information;
    assert_eq!(router.len(), 1);
    assert_eq!(router[0].value, "Age: 3");
    assert_eq!(router[0].text_anchor, TextAnchor::End);
    assert_eq!((router[0].x, router[0].y), (101 + 275 + 75 - 2 + 1, 2));
    assert!(u.information_group[0].router_group.information.is_empty());
}

#[test]
fn border_routers_toggle() {
    let (mut svg, cores) = grid_2x2(["5", "25", "40", "100"]);
    let mut configuration = empty_configuration();
    configuration
        .channel_config
        .insert(BORDER_ROUTERS_KEY.to_string(), FieldConfiguration::Boolean(true));
    let u = update(&mut svg, &cores, &configuration);
    assert_eq!(u.view_box, "-100 -100 652 652");
    assert_eq!(u.style, format!("{}{}", BASE_STYLE, BORDER_STYLE));
    assert_eq!(u.information_group.len(), 4);
    configuration
        .channel_config
        .insert(BORDER_ROUTERS_KEY.to_string(), FieldConfiguration::Boolean(false));
    let u = update(&mut svg, &cores, &configuration);
    assert_eq!(u.view_box, "0 0 452 452");
    assert_eq!(u.style, BASE_STYLE);
}

#[test]
fn routing_directive_is_reported() {
    let mut configuration = empty_configuration();
    assert!(SVG::routing_algorithm(&configuration).is_none());
    configuration.channel_config.insert(
        ROUTING_KEY.to_string(),
        FieldConfiguration::Routing(RoutingConfiguration { algorithm: "RowFirst".to_string() }),
    );
    assert_eq!(SVG::routing_algorithm(&configuration).map(|s| s.as_str()), Some("RowFirst"));
}

#[test]
fn core_count_mismatch() {
    let (mut svg, _) = grid_2x2(["5", "25", "40", "100"]);
    let cores: Vec<CoreRecord> = (0..3u8).map(|i| core_record(i, &[])).collect();
    match svg.update_configurable_information(&cores, &empty_configuration(), &None) {
        Err(e) => match e.error_kind {
            SVGErrorKind::ManycoreMismatch(m) => {
                assert_eq!(m, "Expected one record for each core of the grid, found 3")
            }
            _ => panic!("wrong error kind"),
        },
        Ok(_) => panic!("mismatch accepted"),
    }
}

#[test]
fn grid_dimension_mismatch() {
    let cores: Vec<CoreRecord> = (0..3u8).map(|i| core_record(i, &[])).collect();
    for (rows, columns) in [(2u8, 2u8), (0, 3), (3, 0)] {
        match SVG::from_architecture(&cores, rows, columns) {
            Err(e) => match e.error_kind {
                SVGErrorKind::ConfigurationError(m) => assert_eq!(
                    m,
                    "The grid dimensions do not match the number of cores, 3"
                ),
                _ => panic!("wrong error kind"),
            },
            Ok(_) => panic!("mismatch accepted"),
        }
    }
    assert!(SVG::from_architecture(&cores, 1, 3).is_ok());
}

#[test]
fn static_grid_boxes() {
    let cores: Vec<CoreRecord> = (0..9u8).map(|i| core_record(i, &[])).collect();
    let svg = SVG::from_architecture(&cores, 3, 3).ok().expect("3x3 grid");
    let boxes = svg.processing_groups();
    assert_eq!(boxes.len(), 9);
    assert_eq!(boxes[4].position, GridPosition { row: 1, column: 1 });
    assert_eq!((boxes[4].core_x, boxes[4].core_y), (276, 351));
    assert_eq!((boxes[4].router_x, boxes[4].router_y), (376, 276));
    assert!(!boxes[4].on_edge);
    assert!(boxes[0].on_edge && boxes[5].on_edge && boxes[7].on_edge);
    assert_eq!(svg.width(), 3 * 175 + 2 * 100 + 2);
    assert_eq!(svg.view_box().as_string(), "0 0 727 727");
}

#[test]
fn connection_lookup() {
    let cores: Vec<CoreRecord> = (0..4u8).map(|i| core_record(i, &[])).collect();
    let svg = SVG::from_architecture(&cores, 2, 2).ok().expect("2x2 grid");
    let group = svg.connections();
    let east = get_connection_type(group, &DirectionType::Output(Direction::East), &0);
    assert!(matches!(east, Ok(ConnectionType::Connection(1))));
    let south = get_connection_type(group, &DirectionType::Input(Direction::South), &1);
    assert!(matches!(south, Ok(ConnectionType::Connection(3))));
    let north = get_connection_type(group, &DirectionType::Output(Direction::North), &1);
    assert!(matches!(north, Ok(ConnectionType::EdgeConnection)));
    match get_connection_type(group, &DirectionType::Output(Direction::West), &9) {
        Err(e) => match e.error_kind {
            SVGErrorKind::ConnectionError(m) => assert_eq!(m, "Could not get connections for Core 9"),
            _ => panic!("wrong error kind"),
        },
        Ok(_) => panic!("found a missing core"),
    }
}

#[test]
fn error_messages() {
    match missing_connection(&12).error_kind {
        SVGErrorKind::ConnectionError(m) => {
            assert_eq!(m, "Could not grab SVG connection path for Core 12")
        }
        _ => panic!("wrong error kind"),
    }
    match missing_source_loads(&4).error_kind {
        SVGErrorKind::ManycoreMismatch(m) => assert_eq!(m, "Could not retrieve source loads for Core 4"),
        _ => panic!("wrong error kind"),
    }
    match missing_channel(&3, &Direction::North).error_kind {
        SVGErrorKind::ManycoreMismatch(m) => {
            assert_eq!(m, "Could not retrieve North channel for Core 3")
        }
        _ => panic!("wrong error kind"),
    }
    match missing_source_load(&5, &Direction::West).error_kind {
        SVGErrorKind::ManycoreMismatch(m) => {
            assert_eq!(m, "Could not retrieve West source channel load for Core 5")
        }
        _ => panic!("wrong error kind"),
    }
}

#[test]
fn clip_path_set_and_cleared() {
    let (mut svg, _) = grid_2x2(["5", "25", "40", "100"]);
    assert!(svg.clip_path().is_none());
    svg.add_clip_path("0,0 10,0 10,10".to_string());
    assert_eq!(svg.clip_path().map(|s| s.as_str()), Some("0,0 10,0 10,10"));
    svg.clear_clip_path();
    assert!(svg.clip_path().is_none());
}

#[test]
fn group_framing() {
    assert_eq!(InformationGroup::inner_content("<g>hello</g>"), "hello");
    assert_eq!(InformationGroup::inner_content("<g/>"), "");
    assert_eq!(InformationGroup::inner_content("<g></g>"), "");
}

#[test]
fn generator_appends_to_group() {
    let mut configuration = AttributeConfiguration::new();
    configuration.insert("load".to_string(), FieldConfiguration::Fill(colours()));
    configuration.insert("name".to_string(), FieldConfiguration::Text("N".to_string()));
    let attributes = vec![
        ("name".to_string(), "r1".to_string()),
        ("load".to_string(), "31".to_string()),
    ];
    let mut group = ProcessingInformation::new();
    let mut css = String::from("x");
    generate_with_id(
        10,
        20,
        &configuration,
        1,
        ElementKind::Router,
        &attributes,
        &mut group,
        TextAnchor::End,
        &mut css,
    );
    assert_eq!(css, "x\n#router1 {fill: c2;}");
    assert!(group.filter);
    assert_eq!(group.information.len(), 1);
    assert_eq!(group.information[0].value, "N: r1");
    assert_eq!((group.information[0].x, group.information[0].y), (11, 21));
}

#[test]
fn configuration_insert_replaces() {
    let mut configuration = AttributeConfiguration::new();
    assert!(configuration.is_empty());
    configuration.insert("a".to_string(), FieldConfiguration::Boolean(true));
    configuration.insert("b".to_string(), FieldConfiguration::Boolean(true));
    configuration.insert("a".to_string(), FieldConfiguration::Boolean(false));
    assert_eq!(configuration.len(), 2);
    assert!(matches!(
        configuration.get(&"a".to_string()),
        Some(FieldConfiguration::Boolean(false))
    ));
    assert!(configuration.get(&"c".to_string()).is_none());
    assert_eq!(configuration.entries()[0].0, "a");
}

#[test]
fn styles() {
    assert_eq!(Style::default().css(), ".baseFill{fill: #e5e5e5;}");
    assert_eq!(Style::base().css().as_str(), format!("{}{}", BASE_STYLE, BORDER_STYLE));
}

#[test]
fn layer_for_single_cell() {
    let mut configuration = empty_configuration();
    configuration
        .core_config
        .insert(ID_KEY.to_string(), FieldConfiguration::Text("Core".to_string()));
    let c = core_record(2, &[]);
    let mut css = String::new();
    let layer = InformationLayer::new(GridPosition { row: 0, column: 2 }, &configuration, &c, vec![3, 4], &mut css);
    assert_eq!(layer.core_group.information[0].value, "Core: 2");
    assert_eq!(layer.core_group.information[0].x, 1 + 2 * 275 + 1);
    assert_eq!(layer.loads, vec![3, 4]);
    assert!(css.is_empty());
}

#[test]
fn lines_follow_key_order() {
    let cores = vec![core_record(0, &[("zeta", "1"), ("alpha", "2"), ("Mid", "3")])];
    let mut svg = SVG::from_architecture(&cores, 1, 1).ok().expect("1x1 grid");
    let mut configuration = empty_configuration();
    for key in ["zeta", "alpha", "Mid"] {
        configuration
            .core_config
            .insert(key.to_string(), FieldConfiguration::Text(key.to_uppercase()));
    }
    let keys: Vec<&str> = configuration.core_config.entries().iter().map(|e| e.0.as_str()).collect();
    assert_eq!(keys, vec!["Mid", "alpha", "zeta"]);
    let u = update(&mut svg, &cores, &configuration);
    let lines: Vec<&str> = u.information_group[0]
        .core_group
        .information
        .iter()
        .map(|t| t.value.as_str())
        .collect();
    assert_eq!(lines, vec!["MID: 3", "ALPHA: 2", "ZETA: 1"]);
    let ys: Vec<u32> = u.information_group[0].core_group.information.iter().map(|t| t.y).collect();
    assert_eq!(ys, vec![77, 95, 113]);
}

#[test]
fn loads_of_core_and_sink_are_merged() {
    let links = Some(vec![
        (RoutingTarget::Core(1), vec![7, 3, 9]),
        (RoutingTarget::Sink(0), vec![4]),
        (RoutingTarget::Sink(1), vec![9, 1, 3]),
        (RoutingTarget::Core(1), vec![100]),
    ]);
    assert_eq!(core_loads(&links, 1), vec![1, 3, 7, 9]);
    assert_eq!(core_loads(&links, 0), vec![4]);
    assert!(core_loads(&links, 2).is_empty());
    assert!(core_loads(&None, 1).is_empty());
}

#[test]
fn routed_loads_reach_the_layers() {
    let (mut svg, cores) = grid_2x2(["5", "25", "40", "100"]);
    let mut configuration = empty_configuration();
    configuration
        .core_config
        .insert("load".to_string(), FieldConfiguration::Fill(colours()));
    let links = Some(vec![
        (RoutingTarget::Core(2), vec![5, 2]),
        (RoutingTarget::Sink(2), vec![2, 8]),
    ]);
    let u = match svg.update_configurable_information(&cores, &configuration, &links) {
        Ok(u) => u,
        Err(_) => panic!("reconfiguration failed"),
    };
    assert_eq!(u.information_group[2].loads, vec![2, 5, 8]);
    assert!(u.information_group[0].loads.is_empty());
}
