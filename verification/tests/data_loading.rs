use satisfactory_start_optimizer::data_loader::{
    layer_resource_type, load_map_nodes, marker_resource_type, Category, Item, MapData, Marker,
    SubCategory,
};
use satisfactory_start_optimizer::models::Purity;
use satisfactory_start_optimizer::text::{contains, starts_with, str_eq};

fn marker(t: Option<&str>, path: Option<&str>, purity: Option<&str>, pos: (i32, i32)) -> Marker<(i32, i32)> {
    Marker {
        path_name: path.map(|s| s.to_string()),
        marker_type: t.map(|s| s.to_string()),
        purity: purity.map(|s| s.to_string()),
        position: pos,
    }
}

#[test]
fn layer_ids_map_to_resources() {
    assert_eq!(layer_resource_type("limestone_pure"), "limestone");
    assert_eq!(layer_resource_type("ironNormal"), "iron");
    assert_eq!(layer_resource_type("oilWellNitrogen"), "oil");
    assert_eq!(layer_resource_type("oil"), "oil");
    assert_eq!(layer_resource_type("nitrogenWell"), "nitrogenwell");
    assert_eq!(layer_resource_type("waterWells"), "waterwell");
    assert_eq!(layer_resource_type("geyserNodes"), "geyser");
    assert_eq!(layer_resource_type("samFragments"), "sam");
    assert_eq!(layer_resource_type("greenSlugs"), "blueslug");
    assert_eq!(layer_resource_type("yellowSlugs"), "yellowslug");
    assert_eq!(layer_resource_type("purpleSlugs"), "purpleslug");
    assert_eq!(layer_resource_type("mercerSpheres"), "mercer");
    assert_eq!(layer_resource_type("somersloops"), "somersloop");
    assert_eq!(layer_resource_type("hardDrives"), "harddrive");
    assert_eq!(layer_resource_type("greenSlugsX"), "");
    assert_eq!(layer_resource_type("Iron"), "");
    assert_eq!(layer_resource_type(""), "");
}

#[test]
fn marker_types_override_the_layer() {
    let m = marker(Some("Desc_OreGold_C"), None, None, (0, 0));
    assert_eq!(marker_resource_type(&m, "iron"), "caterium");
    let m = marker(Some("Desc_Unknown_C"), Some("Persistent_Level:BP_ResourceNodeGeyser12"), None, (0, 0));
    assert_eq!(marker_resource_type(&m, "iron"), "geyser");
    let m = marker(None, Some("Persistent_Level:BP_ResourceNode7"), None, (0, 0));
    assert_eq!(marker_resource_type(&m, "iron"), "iron");
    let m = marker(Some("Desc_Water_C"), Some("BP_ResourceNodeGeyser"), None, (0, 0));
    assert_eq!(marker_resource_type(&m, "geyser"), "waterwell");
}

#[test]
fn nested_database_flattens_in_order() {
    let root = MapData {
        options: vec![
            Category {
                options: vec![SubCategory {
                    options: vec![
                        Item {
                            layer_id: "ironPure".to_string(),
                            markers: vec![
                                marker(None, None, Some("RP_Pure"), (1, 2)),
                                marker(Some("Desc_OreCopper_C"), None, Some("RP_Inpure"), (3, 4)),
                            ],
                        },
                        Item {
                            layer_id: "trees".to_string(),
                            markers: vec![marker(None, None, None, (9, 9))],
                        },
                    ],
                }],
            },
            Category { options: vec![] },
            Category {
                options: vec![SubCategory {
                    options: vec![Item {
                        layer_id: "hardDrives".to_string(),
                        markers: vec![marker(None, None, None, (5, 6))],
                    }],
                }],
            },
        ],
    };
    let nodes = load_map_nodes(&root);
    let got: Vec<(String, Purity, (i32, i32))> = nodes
        .into_iter()
        .map(|n| (n.resource_type, n.purity, n.position))
        .collect();
    assert_eq!(
        got,
        vec![
            ("iron".to_string(), Purity::Pure, (1, 2)),
            ("copper".to_string(), Purity::Impure, (3, 4)),
            ("harddrive".to_string(), Purity::Normal, (5, 6)),
        ]
    );
}

#[test]
fn text_helpers() {
    assert!(str_eq("abc", "abc"));
    assert!(!str_eq("abc", "abd"));
    assert!(!str_eq("ab", "abc"));
    assert!(starts_with("oilWell", "oil"));
    assert!(starts_with("oil", ""));
    assert!(!starts_with("oi", "oil"));
    assert!(contains("x_BP_ResourceNodeGeyser_y", "BP_ResourceNodeGeyser"));
    assert!(contains("abc", ""));
    assert!(!contains("BP_ResourceNodeGeyse", "BP_ResourceNodeGeyser"));
    assert!(contains("aab", "ab"));
}
