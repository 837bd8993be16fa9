//! Turning the interactive-map database into resource nodes.
//!
//! The database nests categories, sub-categories and items; each item holds markers.
//! An item's layer id says which resource its markers are, unless a marker names its
//! own type. The coordinates ride along untouched as the payload `C`.

use vstd::prelude::*;

use crate::models::{purity_named, Purity};
use crate::text::{contains, is_prefix_of, occurs_in, starts_with, str_eq};

verus! {

/// One map marker.
pub struct Marker<C> {
    pub path_name: Option<String>,
    pub marker_type: Option<String>,
    pub purity: Option<String>,
    /// Where the marker stands, and what else the caller keeps of it.
    pub position: C,
}

/// A layer of markers.
pub struct Item<C> {
    pub layer_id: String,
    pub markers: Vec<Marker<C>>,
}

/// A group of layers.
pub struct SubCategory<C> {
    pub options: Vec<Item<C>>,
}

/// A group of sub-categories.
pub struct Category<C> {
    pub options: Vec<SubCategory<C>>,
}

/// The whole database.
pub struct MapData<C> {
    pub options: Vec<Category<C>>,
}

/// A resource node read from the database.
pub struct LoadedNode<C> {
    pub resource_type: String,
    pub purity: Purity,
    pub position: C,
}

/// The resource that a layer id stands for, or the empty id for layers that hold no
/// resource. Prefixes are tried in order, then the exact collectible layer names.
pub open spec fn layer_resource(id: Seq<char>) -> Seq<char> {
    if is_prefix_of("limestone"@, id) {
        "limestone"@
    } else if is_prefix_of("iron"@, id) {
        "iron"@
    } else if is_prefix_of("copper"@, id) {
        "copper"@
    } else if is_prefix_of("caterium"@, id) {
        "caterium"@
    } else if is_prefix_of("coal"@, id) {
        "coal"@
    } else if is_prefix_of("oilWell"@, id) {
        "oil"@
    } else if is_prefix_of("oil"@, id) {
        "oil"@
    } else if is_prefix_of("sulfur"@, id) {
        "sulfur"@
    } else if is_prefix_of("bauxite"@, id) {
        "bauxite"@
    } else if is_prefix_of("quartz"@, id) {
        "quartz"@
    } else if is_prefix_of("uranium"@, id) {
        "uranium"@
    } else if is_prefix_of("sam"@, id) {
        "sam"@
    } else if is_prefix_of("nitrogen"@, id) {
        "nitrogenwell"@
    } else if is_prefix_of("water"@, id) {
        "waterwell"@
    } else if is_prefix_of("geyser"@, id) {
        "geyser"@
    } else if id == "greenSlugs"@ {
        "blueslug"@
    } else if id == "yellowSlugs"@ {
        "yellowslug"@
    } else if id == "purpleSlugs"@ {
        "purpleslug"@
    } else if id == "mercerSpheres"@ {
        "mercer"@
    } else if id == "somersloops"@ {
        "somersloop"@
    } else if id == "hardDrives"@ {
        "harddrive"@
    } else {
        Seq::empty()
    }
}

/// The resource that a game descriptor class names, if it names one.
pub open spec fn descriptor_resource(t: Seq<char>) -> Option<Seq<char>> {
    if t == "Desc_Stone_C"@ {
        Some("limestone"@)
    } else if t == "Desc_OreIron_C"@ {
        Some("iron"@)
    } else if t == "Desc_OreCopper_C"@ {
        Some("copper"@)
    } else if t == "Desc_OreGold_C"@ {
        Some("caterium"@)
    } else if t == "Desc_Coal_C"@ {
        Some("coal"@)
    } else if t == "Desc_LiquidOil_C"@ {
        Some("oil"@)
    } else if t == "Desc_Sulfur_C"@ {
        Some("sulfur"@)
    } else if t == "Desc_OreBauxite_C"@ {
        Some("bauxite"@)
    } else if t == "Desc_RawQuartz_C"@ {
        Some("quartz"@)
    } else if t == "Desc_OreUranium_C"@ {
        Some("uranium"@)
    } else if t == "Desc_SAM_C"@ {
        Some("sam"@)
    } else if t == "Desc_NitrogenGas_C"@ {
        Some("nitrogenwell"@)
    } else if t == "Desc_Water_C"@ {
        Some("waterwell"@)
    } else {
        None
    }
}

/// The resource of a marker in a layer whose resource is `default`: the marker's own
/// descriptor if it has a known one, else geyser for geyser actors, else `default`.
pub open spec fn marker_resource<C>(m: Marker<C>, default: Seq<char>) -> Seq<char> {
    match m.marker_type {
        Some(t) if descriptor_resource(t@) is Some => descriptor_resource(t@)->0,
        _ => match m.path_name {
            Some(p) if occurs_in("BP_ResourceNodeGeyser"@, p@) => "geyser"@,
            _ => default,
        },
    }
}

/// The purity of a marker; a marker without one is normal.
pub open spec fn marker_purity<C>(m: Marker<C>) -> Purity {
    match m.purity {
        Some(p) => purity_named(p@),
        None => Purity::Normal,
    }
}

/// A node as the contracts see it: resource id, purity, payload.
pub open spec fn node_view<C>(n: LoadedNode<C>) -> (Seq<char>, Purity, C) {
    (n.resource_type@, n.purity, n.position)
}

/// A list of nodes as the contracts see it.
pub open spec fn nodes_view<C>(s: Seq<LoadedNode<C>>) -> Seq<(Seq<char>, Purity, C)> {
    s.map_values(|n: LoadedNode<C>| node_view(n))
}

/// The nodes that one item yields: one per marker, or none if the layer holds no
/// resource.
pub open spec fn item_nodes<C>(item: Item<C>) -> Seq<(Seq<char>, Purity, C)> {
    let d = layer_resource(item.layer_id@);
    if d.len() == 0 {
        Seq::empty()
    } else {
        item.markers@.map_values(
            |m: Marker<C>| (marker_resource(m, d), marker_purity(m), m.position),
        )
    }
}

/// The nodes of a list of items, in order.
pub open spec fn items_nodes<C>(items: Seq<Item<C>>) -> Seq<(Seq<char>, Purity, C)>
    decreases items.len(),
{
    if items.len() == 0 {
        Seq::empty()
    } else {
        items_nodes(items.drop_last()) + item_nodes(items.last())
    }
}

/// The nodes of a list of sub-categories, in order.
pub open spec fn subcats_nodes<C>(subs: Seq<SubCategory<C>>) -> Seq<(Seq<char>, Purity, C)>
    decreases subs.len(),
{
    if subs.len() == 0 {
        Seq::empty()
    } else {
        subcats_nodes(subs.drop_last()) + items_nodes(subs.last().options@)
    }
}

/// The nodes of a list of categories, in order.
pub open spec fn cats_nodes<C>(cats: Seq<Category<C>>) -> Seq<(Seq<char>, Purity, C)>
    decreases cats.len(),
{
    if cats.len() == 0 {
        Seq::empty()
    } else {
        cats_nodes(cats.drop_last()) + subcats_nodes(cats.last().options@)
    }
}

/// Every resource node of the database, in database order.
pub open spec fn map_nodes<C>(root: MapData<C>) -> Seq<(Seq<char>, Purity, C)> {
    cats_nodes(root.options@)
}

/// The resource a layer id stands for; empty for layers without a resource.
pub fn layer_resource_type(layer_id: &str) -> (r: &'static str)
    ensures
        r@ == layer_resource(layer_id@),
{
    if starts_with(layer_id, "limestone") {
        "limestone"
    } else if starts_with(layer_id, "iron") {
        "iron"
    } else if starts_with(layer_id, "copper") {
        "copper"
    } else if starts_with(layer_id, "caterium") {
        "caterium"
    } else if starts_with(layer_id, "coal") {
        "coal"
    } else if starts_with(layer_id, "oilWell") {
        "oil"
    } else if starts_with(layer_id, "oil") {
        "oil"
    } else if starts_with(layer_id, "sulfur") {
        "sulfur"
    } else if starts_with(layer_id, "bauxite") {
        "bauxite"
    } else if starts_with(layer_id, "quartz") {
        "quartz"
    } else if starts_with(layer_id, "uranium") {
        "uranium"
    } else if starts_with(layer_id, "sam") {
        "sam"
    } else if starts_with(layer_id, "nitrogen") {
        "nitrogenwell"
    } else if starts_with(layer_id, "water") {
        "waterwell"
    } else if starts_with(layer_id, "geyser") {
        "geyser"
    } else if str_eq(layer_id, "greenSlugs") {
        "blueslug"
    } else if str_eq(layer_id, "yellowSlugs") {
        "yellowslug"
    } else if str_eq(layer_id, "purpleSlugs") {
        "purpleslug"
    } else if str_eq(layer_id, "mercerSpheres") {
        "mercer"
    } else if str_eq(layer_id, "somersloops") {
        "somersloop"
    } else if str_eq(layer_id, "hardDrives") {
        "harddrive"
    } else {
        proof {
            reveal_strlit("");
        }
        ""
    }
}

/// The resource a game descriptor class names, if it names one.
pub fn descriptor_resource_type(t: &str) -> (r: Option<&'static str>)
    ensures
        match r {
            Some(s) => descriptor_resource(t@) == Some(s@),
            None => descriptor_resource(t@) is None,
        },
{
    if str_eq(t, "Desc_Stone_C") {
        Some("limestone")
    } else if str_eq(t, "Desc_OreIron_C") {
        Some("iron")
    } else if str_eq(t, "Desc_OreCopper_C") {
        Some("copper")
    } else if str_eq(t, "Desc_OreGold_C") {
        Some("caterium")
    } else if str_eq(t, "Desc_Coal_C") {
        Some("coal")
    } else if str_eq(t, "Desc_LiquidOil_C") {
        Some("oil")
    } else if str_eq(t, "Desc_Sulfur_C") {
        Some("sulfur")
    } else if str_eq(t, "Desc_OreBauxite_C") {
        Some("bauxite")
    } else if str_eq(t, "Desc_RawQuartz_C") {
        Some("quartz")
    } else if str_eq(t, "Desc_OreUranium_C") {
        Some("uranium")
    } else if str_eq(t, "Desc_SAM_C") {
        Some("sam")
    } else if str_eq(t, "Desc_NitrogenGas_C") {
        Some("nitrogenwell")
    } else if str_eq(t, "Desc_Water_C") {
        Some("waterwell")
    } else {
        None
    }
}

/// The resource of a marker found in a layer whose resource is `default`.
pub fn marker_resource_type<C>(m: &Marker<C>, default: &str) -> (r: String)
    ensures
        r@ == marker_resource(*m, default@),
{
    match &m.marker_type {
        Some(t) => match descriptor_resource_type(t.as_str()) {
            Some(r) => {
                return r.to_owned();
            },
            None => {},
        },
        None => {},
    }
    match &m.path_name {
        Some(p) => {
            if contains(p.as_str(), "BP_ResourceNodeGeyser") {
                return "geyser".to_owned();
            }
        },
        None => {},
    }
    default.to_owned()
}

/// The purity of a marker; a marker without one is normal.
pub fn marker_purity_of<C>(m: &Marker<C>) -> (r: Purity)
    ensures
        r == marker_purity(*m),
{
    match &m.purity {
        Some(p) => Purity::from_str(p.as_str()),
        None => Purity::Normal,
    }
}

/// Appends the nodes of one item.
fn push_item_nodes<C: Copy>(out: &mut Vec<LoadedNode<C>>, item: &Item<C>)
    ensures
        nodes_view(final(out)@) == nodes_view(old(out)@) + item_nodes(*item),
{
    let default = layer_resource_type(item.layer_id.as_str());
    if default.is_empty() {
        assert(nodes_view(out@) + item_nodes(*item) =~= nodes_view(out@));
        return;
    }
    let ghost start = nodes_view(out@);
    let ghost d = layer_resource(item.layer_id@);
    let ghost f = |m: Marker<C>| (marker_resource(m, d), marker_purity(m), m.position);
    let mut i: usize = 0;
    while i < item.markers.len()
        invariant
            i <= item.markers.len(),
            default@ == d,
            d.len() > 0,
            f == (|m: Marker<C>| (marker_resource(m, d), marker_purity(m), m.position)),
            nodes_view(out@) == start + item.markers@.take(i as int).map_values(f),
            start == nodes_view(old(out)@),
        decreases item.markers.len() - i,
    {
        let m = &item.markers[i];
        let node = LoadedNode {
            resource_type: marker_resource_type(m, default),
            purity: marker_purity_of(m),
            position: m.position,
        };
        let ghost before = out@;
        out.push(node);
        proof {
            assert(item.markers@.take(i + 1) == item.markers@.take(i as int).push(
                item.markers@[i as int],
            ));
            assert(nodes_view(out@) =~= nodes_view(before).push(node_view(node)));
            assert(item.markers@.take(i + 1).map_values(f) =~= item.markers@.take(
                i as int,
            ).map_values(f).push(f(item.markers@[i as int])));
        }
        i = i + 1;
    }
    assert(item.markers@.take(item.markers.len() as int) == item.markers@);
}

/// Appends the nodes of a list of items.
fn push_items_nodes<C: Copy>(out: &mut Vec<LoadedNode<C>>, items: &Vec<Item<C>>)
    ensures
        nodes_view(final(out)@) == nodes_view(old(out)@) + items_nodes(items@),
{
    let ghost start = nodes_view(out@);
    let mut i: usize = 0;
    while i < items.len()
        invariant
            i <= items.len(),
            start == nodes_view(old(out)@),
            nodes_view(out@) == start + items_nodes(items@.take(i as int)),
        decreases items.len() - i,
    {
        push_item_nodes(out, &items[i]);
        proof {
            let t = items@.take(i + 1);
            assert(t.drop_last() == items@.take(i as int));
            assert(t.last() == items@[i as int]);
            assert(nodes_view(out@) =~= start + items_nodes(t));
        }
        i = i + 1;
    }
    assert(items@.take(items.len() as int) == items@);
}

/// Appends the nodes of a list of sub-categories.
fn push_subcats_nodes<C: Copy>(out: &mut Vec<LoadedNode<C>>, subs: &Vec<SubCategory<C>>)
    ensures
        nodes_view(final(out)@) == nodes_view(old(out)@) + subcats_nodes(subs@),
{
    let ghost start = nodes_view(out@);
    let mut i: usize = 0;
    while i < subs.len()
        invariant
            i <= subs.len(),
            start == nodes_view(old(out)@),
            nodes_view(out@) == start + subcats_nodes(subs@.take(i as int)),
        decreases subs.len() - i,
    {
        push_items_nodes(out, &subs[i].options);
        proof {
            let t = subs@.take(i + 1);
            assert(t.drop_last() == subs@.take(i as int));
            assert(t.last() == subs@[i as int]);
            assert(nodes_view(out@) =~= start + subcats_nodes(t));
        }
        i = i + 1;
    }
    assert(subs@.take(subs.len() as int) == subs@);
}

/// Every resource node of the database, in database order: the markers of each layer
/// that holds a resource, typed and graded as `marker_resource` and `marker_purity` say.
pub fn load_map_nodes<C: Copy>(root: &MapData<C>) -> (out: Vec<LoadedNode<C>>)
    ensures
        nodes_view(out@) == map_nodes(*root),
{
    let mut out: Vec<LoadedNode<C>> = Vec::new();
    let cats = &root.options;
    let mut i: usize = 0;
    assert(nodes_view(out@) =~= Seq::<(Seq<char>, Purity, C)>::empty());
    while i < cats.len()
        invariant
            i <= cats.len(),
            nodes_view(out@) == cats_nodes(cats@.take(i as int)),
        decreases cats.len() - i,
    {
        let ghost before = nodes_view(out@);
        push_subcats_nodes(&mut out, &cats[i].options);
        proof {
            let t = cats@.take(i + 1);
            assert(t.drop_last() == cats@.take(i as int));
            assert(t.last() == cats@[i as int]);
            assert(nodes_view(out@) =~= cats_nodes(t));
        }
        i = i + 1;
    }
    assert(cats@.take(cats.len() as int) == cats@);
    out
}

/// Every node typed from a marker of a resource layer has a non-empty resource id.
proof fn lemma_marker_resource_nonempty<C>(m: Marker<C>, d: Seq<char>)
    requires
        d.len() > 0,
    ensures
        marker_resource(m, d).len() > 0,
{
    reveal_strlit("limestone");
    reveal_strlit("iron");
    reveal_strlit("copper");
    reveal_strlit("caterium");
    reveal_strlit("coal");
    reveal_strlit("oil");
    reveal_strlit("sulfur");
    reveal_strlit("bauxite");
    reveal_strlit("quartz");
    reveal_strlit("uranium");
    reveal_strlit("sam");
    reveal_strlit("nitrogenwell");
    reveal_strlit("waterwell");
    reveal_strlit("geyser");
}

proof fn lemma_item_nodes_typed<C>(item: Item<C>)
    ensures
        forall|i: int| 0 <= i < item_nodes(item).len() ==> (#[trigger] item_nodes(item)[i]).0.len() > 0,
{
    let d = layer_resource(item.layer_id@);
    if d.len() > 0 {
        assert forall|i: int| 0 <= i < item_nodes(item).len() implies (#[trigger] item_nodes(
            item,
        )[i]).0.len() > 0 by {
            lemma_marker_resource_nonempty(item.markers@[i], d);
        }
    }
}

proof fn lemma_items_nodes_typed<C>(items: Seq<Item<C>>)
    ensures
        forall|i: int| 0 <= i < items_nodes(items).len() ==> (#[trigger] items_nodes(items)[i]).0.len() > 0,
    decreases items.len(),
{
    if items.len() > 0 {
        lemma_items_nodes_typed(items.drop_last());
        lemma_item_nodes_typed(items.last());
        let a = items_nodes(items.drop_last());
        let b = item_nodes(items.last());
        assert forall|i: int| 0 <= i < items_nodes(items).len() implies (#[trigger] items_nodes(
            items,
        )[i]).0.len() > 0 by {
            if i < a.len() {
                assert(items_nodes(items)[i] == a[i]);
            } else {
                assert(items_nodes(items)[i] == b[i - a.len()]);
            }
        }
    }
}

proof fn lemma_subcats_nodes_typed<C>(subs: Seq<SubCategory<C>>)
    ensures
        forall|i: int| 0 <= i < subcats_nodes(subs).len() ==> (#[trigger] subcats_nodes(subs)[i]).0.len() > 0,
    decreases subs.len(),
{
    if subs.len() > 0 {
        lemma_subcats_nodes_typed(subs.drop_last());
        lemma_items_nodes_typed(subs.last().options@);
        let a = subcats_nodes(subs.drop_last());
        let b = items_nodes(subs.last().options@);
        assert forall|i: int| 0 <= i < subcats_nodes(subs).len() implies (#[trigger] subcats_nodes(
            subs,
        )[i]).0.len() > 0 by {
            if i < a.len() {
                assert(subcats_nodes(subs)[i] == a[i]);
            } else {
                assert(subcats_nodes(subs)[i] == b[i - a.len()]);
            }
        }
    }
}

proof fn lemma_cats_nodes_typed<C>(cats: Seq<Category<C>>)
    ensures
        forall|i: int| 0 <= i < cats_nodes(cats).len() ==> (#[trigger] cats_nodes(cats)[i]).0.len() > 0,
    decreases cats.len(),
{
    if cats.len() > 0 {
        lemma_cats_nodes_typed(cats.drop_last());
        lemma_subcats_nodes_typed(cats.last().options@);
        let a = cats_nodes(cats.drop_last());
        let b = subcats_nodes(cats.last().options@);
        assert forall|i: int| 0 <= i < cats_nodes(cats).len() implies (#[trigger] cats_nodes(
            cats,
        )[i]).0.len() > 0 by {
            if i < a.len() {
                assert(cats_nodes(cats)[i] == a[i]);
            } else {
                assert(cats_nodes(cats)[i] == b[i - a.len()]);
            }
        }
    }
}

/// Law: every node read from the database carries a resource id; markers of layers
/// that hold no resource never become nodes.
pub proof fn lemma_loaded_nodes_are_typed<C>(root: MapData<C>)
    ensures
        forall|i: int| 0 <= i < map_nodes(root).len() ==> (#[trigger] map_nodes(root)[i]).0.len() > 0,
{
    lemma_cats_nodes_typed(root.options@);
}

proof fn lemma_prefix_exclusive(p: Seq<char>, q: Seq<char>, id: Seq<char>, k: int)
    requires
        0 <= k < p.len(),
        k < q.len(),
        p[k] != q[k],
        is_prefix_of(p, id),
    ensures
        !is_prefix_of(q, id),
{
    if is_prefix_of(q, id) {
        assert(id.take(p.len() as int)[k] == id[k]);
        assert(id.take(q.len() as int)[k] == id[k]);
    }
}

proof fn lemma_layer_prefix_0(id: Seq<char>)
    ensures
        is_prefix_of("limestone"@, id) ==> layer_resource(id) == "limestone"@,
{
    reveal_strlit("limestone");
    if is_prefix_of("limestone"@, id) {
    }
}

proof fn lemma_layer_prefix_1(id: Seq<char>)
    ensures
        is_prefix_of("iron"@, id) ==> layer_resource(id) == "iron"@,
{
    reveal_strlit("iron");
    reveal_strlit("limestone");
    if is_prefix_of("iron"@, id) {
        assert("iron"@[0] != "limestone"@[0]);
        lemma_prefix_exclusive("iron"@, "limestone"@, id, 0);
    }
}

proof fn lemma_layer_prefix_2(id: Seq<char>)
    ensures
        is_prefix_of("copper"@, id) ==> layer_resource(id) == "copper"@,
{
    reveal_strlit("copper");
    reveal_strlit("iron");
    reveal_strlit("limestone");
    if is_prefix_of("copper"@, id) {
        assert("copper"@[0] != "limestone"@[0]);
        lemma_prefix_exclusive("copper"@, "limestone"@, id, 0);
        assert("copper"@[0] != "iron"@[0]);
        lemma_prefix_exclusive("copper"@, "iron"@, id, 0);
    }
}

proof fn lemma_layer_prefix_3(id: Seq<char>)
    ensures
        is_prefix_of("caterium"@, id) ==> layer_resource(id) == "caterium"@,
{
    reveal_strlit("caterium");
    reveal_strlit("copper");
    reveal_strlit("iron");
    reveal_strlit("limestone");
    if is_prefix_of("caterium"@, id) {
        assert("caterium"@[0] != "limestone"@[0]);
        lemma_prefix_exclusive("caterium"@, "limestone"@, id, 0);
        assert("caterium"@[0] != "iron"@[0]);
        lemma_prefix_exclusive("caterium"@, "iron"@, id, 0);
        assert("caterium"@[1] != "copper"@[1]);
        lemma_prefix_exclusive("caterium"@, "copper"@, id, 1);
    }
}

proof fn lemma_layer_prefix_4(id: Seq<char>)
    ensures
        is_prefix_of("coal"@, id) ==> layer_resource(id) == "coal"@,
{
    reveal_strlit("caterium");
    reveal_strlit("coal");
    reveal_strlit("copper");
    reveal_strlit("iron");
    reveal_strlit("limestone");
    if is_prefix_of("coal"@, id) {
        assert("coal"@[0] != "limestone"@[0]);
        lemma_prefix_exclusive("coal"@, "limestone"@, id, 0);
        assert("coal"@[0] != "iron"@[0]);
        lemma_prefix_exclusive("coal"@, "iron"@, id, 0);
        assert("coal"@[2] != "copper"@[2]);
        lemma_prefix_exclusive("coal"@, "copper"@, id, 2);
        assert("coal"@[1] != "caterium"@[1]);
        lemma_prefix_exclusive("coal"@, "caterium"@, id, 1);
    }
}

proof fn lemma_layer_prefix_5(id: Seq<char>)
    ensures
        is_prefix_of("oil"@, id) ==> layer_resource(id) == "oil"@,
{
    reveal_strlit("caterium");
    reveal_strlit("coal");
    reveal_strlit("copper");
    reveal_strlit("iron");
    reveal_strlit("limestone");
    reveal_strlit("oil");
    reveal_strlit("oilWell");
    if is_prefix_of("oil"@, id) {
        assert("oil"@[0] != "limestone"@[0]);
        lemma_prefix_exclusive("oil"@, "limestone"@, id, 0);
        assert("oil"@[0] != "iron"@[0]);
        lemma_prefix_exclusive("oil"@, "iron"@, id, 0);
        assert("oil"@[0] != "copper"@[0]);
        lemma_prefix_exclusive("oil"@, "copper"@, id, 0);
        assert("oil"@[0] != "caterium"@[0]);
        lemma_prefix_exclusive("oil"@, "caterium"@, id, 0);
        assert("oil"@[0] != "coal"@[0]);
        lemma_prefix_exclusive("oil"@, "coal"@, id, 0);
    }
}

proof fn lemma_layer_prefix_6(id: Seq<char>)
    ensures
        is_prefix_of("sulfur"@, id) ==> layer_resource(id) == "sulfur"@,
{
    reveal_strlit("caterium");
    reveal_strlit("coal");
    reveal_strlit("copper");
    reveal_strlit("iron");
    reveal_strlit("limestone");
    reveal_strlit("oil");
    reveal_strlit("oilWell");
    reveal_strlit("sulfur");
    if is_prefix_of("sulfur"@, id) {
        assert("sulfur"@[0] != "limestone"@[0]);
        lemma_prefix_exclusive("sulfur"@, "limestone"@, id, 0);
        assert("sulfur"@[0] != "iron"@[0]);
        lemma_prefix_exclusive("sulfur"@, "iron"@, id, 0);
        assert("sulfur"@[0] != "copper"@[0]);
        lemma_prefix_exclusive("sulfur"@, "copper"@, id, 0);
        assert("sulfur"@[0] != "caterium"@[0]);
        lemma_prefix_exclusive("sulfur"@, "caterium"@, id, 0);
        assert("sulfur"@[0] != "coal"@[0]);
        lemma_prefix_exclusive("sulfur"@, "coal"@, id, 0);
        assert("sulfur"@[0] != "oilWell"@[0]);
        lemma_prefix_exclusive("sulfur"@, "oilWell"@, id, 0);
        assert("sulfur"@[0] != "oil"@[0]);
        lemma_prefix_exclusive("sulfur"@, "oil"@, id, 0);
    }
}

proof fn lemma_layer_prefix_7(id: Seq<char>)
    ensures
        is_prefix_of("bauxite"@, id) ==> layer_resource(id) == "bauxite"@,
{
    reveal_strlit("bauxite");
    reveal_strlit("caterium");
    reveal_strlit("coal");
    reveal_strlit("copper");
    reveal_strlit("iron");
    reveal_strlit("limestone");
    reveal_strlit("oil");
    reveal_strlit("oilWell");
    reveal_strlit("sulfur");
    if is_prefix_of("bauxite"@, id) {
        assert("bauxite"@[0] != "limestone"@[0]);
        lemma_prefix_exclusive("bauxite"@, "limestone"@, id, 0);
        assert("bauxite"@[0] != "iron"@[0]);
        lemma_prefix_exclusive("bauxite"@, "iron"@, id, 0);
        assert("bauxite"@[0] != "copper"@[0]);
        lemma_prefix_exclusive("bauxite"@, "copper"@, id, 0);
        assert("bauxite"@[0] != "caterium"@[0]);
        lemma_prefix_exclusive("bauxite"@, "caterium"@, id, 0);
        assert("bauxite"@[0] != "coal"@[0]);
        lemma_prefix_exclusive("bauxite"@, "coal"@, id, 0);
        assert("bauxite"@[0] != "oilWell"@[0]);
        lemma_prefix_exclusive("bauxite"@, "oilWell"@, id, 0);
        assert("bauxite"@[0] != "oil"@[0]);
        lemma_prefix_exclusive("bauxite"@, "oil"@, id, 0);
        assert("bauxite"@[0] != "sulfur"@[0]);
        lemma_prefix_exclusive("bauxite"@, "sulfur"@, id, 0);
    }
}

proof fn lemma_layer_prefix_8(id: Seq<char>)
    ensures
        is_prefix_of("quartz"@, id) ==> layer_resource(id) == "quartz"@,
{
    reveal_strlit("bauxite");
    reveal_strlit("caterium");
    reveal_strlit("coal");
    reveal_strlit("copper");
    reveal_strlit("iron");
    reveal_strlit("limestone");
    reveal_strlit("oil");
    reveal_strlit("oilWell");
    reveal_strlit("quartz");
    reveal_strlit("sulfur");
    if is_prefix_of("quartz"@, id) {
        assert("quartz"@[0] != "limestone"@[0]);
        lemma_prefix_exclusive("quartz"@, "limestone"@, id, 0);
        assert("quartz"@[0] != "iron"@[0]);
        lemma_prefix_exclusive("quartz"@, "iron"@, id, 0);
        assert("quartz"@[0] != "copper"@[0]);
        lemma_prefix_exclusive("quartz"@, "copper"@, id, 0);
        assert("quartz"@[0] != "caterium"@[0]);
        lemma_prefix_exclusive("quartz"@, "caterium"@, id, 0);
        assert("quartz"@[0] != "coal"@[0]);
        lemma_prefix_exclusive("quartz"@, "coal"@, id, 0);
        assert("quartz"@[0] != "oilWell"@[0]);
        lemma_prefix_exclusive("quartz"@, "oilWell"@, id, 0);
        assert("quartz"@[0] != "oil"@[0]);
        lemma_prefix_exclusive("quartz"@, "oil"@, id, 0);
        assert("quartz"@[0] != "sulfur"@[0]);
        lemma_prefix_exclusive("quartz"@, "sulfur"@, id, 0);
        assert("quartz"@[0] != "bauxite"@[0]);
        lemma_prefix_exclusive("quartz"@, "bauxite"@, id, 0);
    }
}

proof fn lemma_layer_prefix_9(id: Seq<char>)
    ensures
        is_prefix_of("uranium"@, id) ==> layer_resource(id) == "uranium"@,
{
    reveal_strlit("bauxite");
    reveal_strlit("caterium");
    reveal_strlit("coal");
    reveal_strlit("copper");
    reveal_strlit("iron");
    reveal_strlit("limestone");
    reveal_strlit("oil");
    reveal_strlit("oilWell");
    reveal_strlit("quartz");
    reveal_strlit("sulfur");
    reveal_strlit("uranium");
    if is_prefix_of("uranium"@, id) {
        assert("uranium"@[0] != "limestone"@[0]);
        lemma_prefix_exclusive("uranium"@, "limestone"@, id, 0);
        assert("uranium"@[0] != "iron"@[0]);
        lemma_prefix_exclusive("uranium"@, "iron"@, id, 0);
        assert("uranium"@[0] != "copper"@[0]);
        lemma_prefix_exclusive("uranium"@, "copper"@, id, 0);
        assert("uranium"@[0] != "caterium"@[0]);
        lemma_prefix_exclusive("uranium"@, "caterium"@, id, 0);
        assert("uranium"@[0] != "coal"@[0]);
        lemma_prefix_exclusive("uranium"@, "coal"@, id, 0);
        assert("uranium"@[0] != "oilWell"@[0]);
        lemma_prefix_exclusive("uranium"@, "oilWell"@, id, 0);
        assert("uranium"@[0] != "oil"@[0]);
        lemma_prefix_exclusive("uranium"@, "oil"@, id, 0);
        assert("uranium"@[0] != "sulfur"@[0]);
        lemma_prefix_exclusive("uranium"@, "sulfur"@, id, 0);
        assert("uranium"@[0] != "bauxite"@[0]);
        lemma_prefix_exclusive("uranium"@, "bauxite"@, id, 0);
        assert("uranium"@[0] != "quartz"@[0]);
        lemma_prefix_exclusive("uranium"@, "quartz"@, id, 0);
    }
}

proof fn lemma_layer_prefix_10(id: Seq<char>)
    ensures
        is_prefix_of("sam"@, id) ==> layer_resource(id) == "sam"@,
{
    reveal_strlit("bauxite");
    reveal_strlit("caterium");
    reveal_strlit("coal");
    reveal_strlit("copper");
    reveal_strlit("iron");
    reveal_strlit("limestone");
    reveal_strlit("oil");
    reveal_strlit("oilWell");
    reveal_strlit("quartz");
    reveal_strlit("sam");
    reveal_strlit("sulfur");
    reveal_strlit("uranium");
    if is_prefix_of("sam"@, id) {
        assert("sam"@[0] != "limestone"@[0]);
        lemma_prefix_exclusive("sam"@, "limestone"@, id, 0);
        assert("sam"@[0] != "iron"@[0]);
        lemma_prefix_exclusive("sam"@, "iron"@, id, 0);
        assert("sam"@[0] != "copper"@[0]);
        lemma_prefix_exclusive("sam"@, "copper"@, id, 0);
        assert("sam"@[0] != "caterium"@[0]);
        lemma_prefix_exclusive("sam"@, "caterium"@, id, 0);
        assert("sam"@[0] != "coal"@[0]);
        lemma_prefix_exclusive("sam"@, "coal"@, id, 0);
        assert("sam"@[0] != "oilWell"@[0]);
        lemma_prefix_exclusive("sam"@, "oilWell"@, id, 0);
        assert("sam"@[0] != "oil"@[0]);
        lemma_prefix_exclusive("sam"@, "oil"@, id, 0);
        assert("sam"@[1] != "sulfur"@[1]);
        lemma_prefix_exclusive("sam"@, "sulfur"@, id, 1);
        assert("sam"@[0] != "bauxite"@[0]);
        lemma_prefix_exclusive("sam"@, "bauxite"@, id, 0);
        assert("sam"@[0] != "quartz"@[0]);
        lemma_prefix_exclusive("sam"@, "quartz"@, id, 0);
        assert("sam"@[0] != "uranium"@[0]);
        lemma_prefix_exclusive("sam"@, "uranium"@, id, 0);
    }
}

proof fn lemma_layer_prefix_11(id: Seq<char>)
    ensures
        is_prefix_of("nitrogen"@, id) ==> layer_resource(id) == "nitrogenwell"@,
{
    reveal_strlit("bauxite");
    reveal_strlit("caterium");
    reveal_strlit("coal");
    reveal_strlit("copper");
    reveal_strlit("iron");
    reveal_strlit("limestone");
    reveal_strlit("nitrogen");
    reveal_strlit("nitrogenwell");
    reveal_strlit("oil");
    reveal_strlit("oilWell");
    reveal_strlit("quartz");
    reveal_strlit("sam");
    reveal_strlit("sulfur");
    reveal_strlit("uranium");
    if is_prefix_of("nitrogen"@, id) {
        assert("nitrogen"@[0] != "limestone"@[0]);
        lemma_prefix_exclusive("nitrogen"@, "limestone"@, id, 0);
        assert("nitrogen"@[0] != "iron"@[0]);
        lemma_prefix_exclusive("nitrogen"@, "iron"@, id, 0);
        assert("nitrogen"@[0] != "copper"@[0]);
        lemma_prefix_exclusive("nitrogen"@, "copper"@, id, 0);
        assert("nitrogen"@[0] != "caterium"@[0]);
        lemma_prefix_exclusive("nitrogen"@, "caterium"@, id, 0);
        assert("nitrogen"@[0] != "coal"@[0]);
        lemma_prefix_exclusive("nitrogen"@, "coal"@, id, 0);
        assert("nitrogen"@[0] != "oilWell"@[0]);
        lemma_prefix_exclusive("nitrogen"@, "oilWell"@, id, 0);
        assert("nitrogen"@[0] != "oil"@[0]);
        lemma_prefix_exclusive("nitrogen"@, "oil"@, id, 0);
        assert("nitrogen"@[0] != "sulfur"@[0]);
        lemma_prefix_exclusive("nitrogen"@, "sulfur"@, id, 0);
        assert("nitrogen"@[0] != "bauxite"@[0]);
        lemma_prefix_exclusive("nitrogen"@, "bauxite"@, id, 0);
        assert("nitrogen"@[0] != "quartz"@[0]);
        lemma_prefix_exclusive("nitrogen"@, "quartz"@, id, 0);
        assert("nitrogen"@[0] != "uranium"@[0]);
        lemma_prefix_exclusive("nitrogen"@, "uranium"@, id, 0);
        assert("nitrogen"@[0] != "sam"@[0]);
        lemma_prefix_exclusive("nitrogen"@, "sam"@, id, 0);
    }
}

proof fn lemma_layer_prefix_12(id: Seq<char>)
    ensures
        is_prefix_of("water"@, id) ==> layer_resource(id) == "waterwell"@,
{
    reveal_strlit("bauxite");
    reveal_strlit("caterium");
    reveal_strlit("coal");
    reveal_strlit("copper");
    reveal_strlit("iron");
    reveal_strlit("limestone");
    reveal_strlit("nitrogen");
    reveal_strlit("oil");
    reveal_strlit("oilWell");
    reveal_strlit("quartz");
    reveal_strlit("sam");
    reveal_strlit("sulfur");
    reveal_strlit("uranium");
    reveal_strlit("water");
    reveal_strlit("waterwell");
    if is_prefix_of("water"@, id) {
        assert("water"@[0] != "limestone"@[0]);
        lemma_prefix_exclusive("water"@, "limestone"@, id, 0);
        assert("water"@[0] != "iron"@[0]);
        lemma_prefix_exclusive("water"@, "iron"@, id, 0);
        assert("water"@[0] != "copper"@[0]);
        lemma_prefix_exclusive("water"@, "copper"@, id, 0);
        assert("water"@[0] != "caterium"@[0]);
        lemma_prefix_exclusive("water"@, "caterium"@, id, 0);
        assert("water"@[0] != "coal"@[0]);
        lemma_prefix_exclusive("water"@, "coal"@, id, 0);
        assert("water"@[0] != "oilWell"@[0]);
        lemma_prefix_exclusive("water"@, "oilWell"@, id, 0);
        assert("water"@[0] != "oil"@[0]);
        lemma_prefix_exclusive("water"@, "oil"@, id, 0);
        assert("water"@[0] != "sulfur"@[0]);
        lemma_prefix_exclusive("water"@, "sulfur"@, id, 0);
        assert("water"@[0] != "bauxite"@[0]);
        lemma_prefix_exclusive("water"@, "bauxite"@, id, 0);
        assert("water"@[0] != "quartz"@[0]);
        lemma_prefix_exclusive("water"@, "quartz"@, id, 0);
        assert("water"@[0] != "uranium"@[0]);
        lemma_prefix_exclusive("water"@, "uranium"@, id, 0);
        assert("water"@[0] != "sam"@[0]);
        lemma_prefix_exclusive("water"@, "sam"@, id, 0);
        assert("water"@[0] != "nitrogen"@[0]);
        lemma_prefix_exclusive("water"@, "nitrogen"@, id, 0);
    }
}

proof fn lemma_layer_prefix_13(id: Seq<char>)
    ensures
        is_prefix_of("geyser"@, id) ==> layer_resource(id) == "geyser"@,
{
    reveal_strlit("bauxite");
    reveal_strlit("caterium");
    reveal_strlit("coal");
    reveal_strlit("copper");
    reveal_strlit("geyser");
    reveal_strlit("iron");
    reveal_strlit("limestone");
    reveal_strlit("nitrogen");
    reveal_strlit("oil");
    reveal_strlit("oilWell");
    reveal_strlit("quartz");
    reveal_strlit("sam");
    reveal_strlit("sulfur");
    reveal_strlit("uranium");
    reveal_strlit("water");
    if is_prefix_of("geyser"@, id) {
        assert("geyser"@[0] != "limestone"@[0]);
        lemma_prefix_exclusive("geyser"@, "limestone"@, id, 0);
        assert("geyser"@[0] != "iron"@[0]);
        lemma_prefix_exclusive("geyser"@, "iron"@, id, 0);
        assert("geyser"@[0] != "copper"@[0]);
        lemma_prefix_exclusive("geyser"@, "copper"@, id, 0);
        assert("geyser"@[0] != "caterium"@[0]);
        lemma_prefix_exclusive("geyser"@, "caterium"@, id, 0);
        assert("geyser"@[0] != "coal"@[0]);
        lemma_prefix_exclusive("geyser"@, "coal"@, id, 0);
        assert("geyser"@[0] != "oilWell"@[0]);
        lemma_prefix_exclusive("geyser"@, "oilWell"@, id, 0);
        assert("geyser"@[0] != "oil"@[0]);
        lemma_prefix_exclusive("geyser"@, "oil"@, id, 0);
        assert("geyser"@[0] != "sulfur"@[0]);
        lemma_prefix_exclusive("geyser"@, "sulfur"@, id, 0);
        assert("geyser"@[0] != "bauxite"@[0]);
        lemma_prefix_exclusive("geyser"@, "bauxite"@, id, 0);
        assert("geyser"@[0] != "quartz"@[0]);
        lemma_prefix_exclusive("geyser"@, "quartz"@, id, 0);
        assert("geyser"@[0] != "uranium"@[0]);
        lemma_prefix_exclusive("geyser"@, "uranium"@, id, 0);
        assert("geyser"@[0] != "sam"@[0]);
        lemma_prefix_exclusive("geyser"@, "sam"@, id, 0);
        assert("geyser"@[0] != "nitrogen"@[0]);
        lemma_prefix_exclusive("geyser"@, "nitrogen"@, id, 0);
        assert("geyser"@[0] != "water"@[0]);
        lemma_prefix_exclusive("geyser"@, "water"@, id, 0);
    }
}

proof fn lemma_collectible_layer_0()
    ensures
        layer_resource("greenSlugs"@) == "blueslug"@,
{
    reveal_strlit("bauxite");
    reveal_strlit("blueslug");
    reveal_strlit("caterium");
    reveal_strlit("coal");
    reveal_strlit("copper");
    reveal_strlit("geyser");
    reveal_strlit("greenSlugs");
    reveal_strlit("iron");
    reveal_strlit("limestone");
    reveal_strlit("nitrogen");
    reveal_strlit("oil");
    reveal_strlit("oilWell");
    reveal_strlit("quartz");
    reveal_strlit("sam");
    reveal_strlit("sulfur");
    reveal_strlit("uranium");
    reveal_strlit("water");
    assert(!is_prefix_of("limestone"@, "greenSlugs"@)) by {
        if is_prefix_of("limestone"@, "greenSlugs"@) {
            assert("greenSlugs"@.take("limestone"@.len() as int)[0] == "greenSlugs"@[0]);
        }
    }
    assert(!is_prefix_of("iron"@, "greenSlugs"@)) by {
        if is_prefix_of("iron"@, "greenSlugs"@) {
            assert("greenSlugs"@.take("iron"@.len() as int)[0] == "greenSlugs"@[0]);
        }
    }
    assert(!is_prefix_of("copper"@, "greenSlugs"@)) by {
        if is_prefix_of("copper"@, "greenSlugs"@) {
            assert("greenSlugs"@.take("copper"@.len() as int)[0] == "greenSlugs"@[0]);
        }
    }
    assert(!is_prefix_of("caterium"@, "greenSlugs"@)) by {
        if is_prefix_of("caterium"@, "greenSlugs"@) {
            assert("greenSlugs"@.take("caterium"@.len() as int)[0] == "greenSlugs"@[0]);
        }
    }
    assert(!is_prefix_of("coal"@, "greenSlugs"@)) by {
        if is_prefix_of("coal"@, "greenSlugs"@) {
            assert("greenSlugs"@.take("coal"@.len() as int)[0] == "greenSlugs"@[0]);
        }
    }
    assert(!is_prefix_of("oilWell"@, "greenSlugs"@)) by {
        if is_prefix_of("oilWell"@, "greenSlugs"@) {
            assert("greenSlugs"@.take("oilWell"@.len() as int)[0] == "greenSlugs"@[0]);
        }
    }
    assert(!is_prefix_of("oil"@, "greenSlugs"@)) by {
        if is_prefix_of("oil"@, "greenSlugs"@) {
            assert("greenSlugs"@.take("oil"@.len() as int)[0] == "greenSlugs"@[0]);
        }
    }
    assert(!is_prefix_of("sulfur"@, "greenSlugs"@)) by {
        if is_prefix_of("sulfur"@, "greenSlugs"@) {
            assert("greenSlugs"@.take("sulfur"@.len() as int)[0] == "greenSlugs"@[0]);
        }
    }
    assert(!is_prefix_of("bauxite"@, "greenSlugs"@)) by {
        if is_prefix_of("bauxite"@, "greenSlugs"@) {
            assert("greenSlugs"@.take("bauxite"@.len() as int)[0] == "greenSlugs"@[0]);
        }
    }
    assert(!is_prefix_of("quartz"@, "greenSlugs"@)) by {
        if is_prefix_of("quartz"@, "greenSlugs"@) {
            assert("greenSlugs"@.take("quartz"@.len() as int)[0] == "greenSlugs"@[0]);
        }
    }
    assert(!is_prefix_of("uranium"@, "greenSlugs"@)) by {
        if is_prefix_of("uranium"@, "greenSlugs"@) {
            assert("greenSlugs"@.take("uranium"@.len() as int)[0] == "greenSlugs"@[0]);
        }
    }
    assert(!is_prefix_of("sam"@, "greenSlugs"@)) by {
        if is_prefix_of("sam"@, "greenSlugs"@) {
            assert("greenSlugs"@.take("sam"@.len() as int)[0] == "greenSlugs"@[0]);
        }
    }
    assert(!is_prefix_of("nitrogen"@, "greenSlugs"@)) by {
        if is_prefix_of("nitrogen"@, "greenSlugs"@) {
            assert("greenSlugs"@.take("nitrogen"@.len() as int)[0] == "greenSlugs"@[0]);
        }
    }
    assert(!is_prefix_of("water"@, "greenSlugs"@)) by {
        if is_prefix_of("water"@, "greenSlugs"@) {
            assert("greenSlugs"@.take("water"@.len() as int)[0] == "greenSlugs"@[0]);
        }
    }
    assert(!is_prefix_of("geyser"@, "greenSlugs"@)) by {
        if is_prefix_of("geyser"@, "greenSlugs"@) {
            assert("greenSlugs"@.take("geyser"@.len() as int)[1] == "greenSlugs"@[1]);
        }
    }
}

proof fn lemma_collectible_layer_1()
    ensures
        layer_resource("yellowSlugs"@) == "yellowslug"@,
{
    reveal_strlit("bauxite");
    reveal_strlit("caterium");
    reveal_strlit("coal");
    reveal_strlit("copper");
    reveal_strlit("geyser");
    reveal_strlit("greenSlugs");
    reveal_strlit("iron");
    reveal_strlit("limestone");
    reveal_strlit("nitrogen");
    reveal_strlit("oil");
    reveal_strlit("oilWell");
    reveal_strlit("quartz");
    reveal_strlit("sam");
    reveal_strlit("sulfur");
    reveal_strlit("uranium");
    reveal_strlit("water");
    reveal_strlit("yellowSlugs");
    reveal_strlit("yellowslug");
    assert(!is_prefix_of("limestone"@, "yellowSlugs"@)) by {
        if is_prefix_of("limestone"@, "yellowSlugs"@) {
            assert("yellowSlugs"@.take("limestone"@.len() as int)[0] == "yellowSlugs"@[0]);
        }
    }
    assert(!is_prefix_of("iron"@, "yellowSlugs"@)) by {
        if is_prefix_of("iron"@, "yellowSlugs"@) {
            assert("yellowSlugs"@.take("iron"@.len() as int)[0] == "yellowSlugs"@[0]);
        }
    }
    assert(!is_prefix_of("copper"@, "yellowSlugs"@)) by {
        if is_prefix_of("copper"@, "yellowSlugs"@) {
            assert("yellowSlugs"@.take("copper"@.len() as int)[0] == "yellowSlugs"@[0]);
        }
    }
    assert(!is_prefix_of("caterium"@, "yellowSlugs"@)) by {
        if is_prefix_of("caterium"@, "yellowSlugs"@) {
            assert("yellowSlugs"@.take("caterium"@.len() as int)[0] == "yellowSlugs"@[0]);
        }
    }
    assert(!is_prefix_of("coal"@, "yellowSlugs"@)) by {
        if is_prefix_of("coal"@, "yellowSlugs"@) {
            assert("yellowSlugs"@.take("coal"@.len() as int)[0] == "yellowSlugs"@[0]);
        }
    }
    assert(!is_prefix_of("oilWell"@, "yellowSlugs"@)) by {
        if is_prefix_of("oilWell"@, "yellowSlugs"@) {
            assert("yellowSlugs"@.take("oilWell"@.len() as int)[0] == "yellowSlugs"@[0]);
        }
    }
    assert(!is_prefix_of("oil"@, "yellowSlugs"@)) by {
        if is_prefix_of("oil"@, "yellowSlugs"@) {
            assert("yellowSlugs"@.take("oil"@.len() as int)[0] == "yellowSlugs"@[0]);
        }
    }
    assert(!is_prefix_of("sulfur"@, "yellowSlugs"@)) by {
        if is_prefix_of("sulfur"@, "yellowSlugs"@) {
            assert("yellowSlugs"@.take("sulfur"@.len() as int)[0] == "yellowSlugs"@[0]);
        }
    }
    assert(!is_prefix_of("bauxite"@, "yellowSlugs"@)) by {
        if is_prefix_of("bauxite"@, "yellowSlugs"@) {
            assert("yellowSlugs"@.take("bauxite"@.len() as int)[0] == "yellowSlugs"@[0]);
        }
    }
    assert(!is_prefix_of("quartz"@, "yellowSlugs"@)) by {
        if is_prefix_of("quartz"@, "yellowSlugs"@) {
            assert("yellowSlugs"@.take("quartz"@.len() as int)[0] == "yellowSlugs"@[0]);
        }
    }
    assert(!is_prefix_of("uranium"@, "yellowSlugs"@)) by {
        if is_prefix_of("uranium"@, "yellowSlugs"@) {
            assert("yellowSlugs"@.take("uranium"@.len() as int)[0] == "yellowSlugs"@[0]);
        }
    }
    assert(!is_prefix_of("sam"@, "yellowSlugs"@)) by {
        if is_prefix_of("sam"@, "yellowSlugs"@) {
            assert("yellowSlugs"@.take("sam"@.len() as int)[0] == "yellowSlugs"@[0]);
        }
    }
    assert(!is_prefix_of("nitrogen"@, "yellowSlugs"@)) by {
        if is_prefix_of("nitrogen"@, "yellowSlugs"@) {
            assert("yellowSlugs"@.take("nitrogen"@.len() as int)[0] == "yellowSlugs"@[0]);
        }
    }
    assert(!is_prefix_of("water"@, "yellowSlugs"@)) by {
        if is_prefix_of("water"@, "yellowSlugs"@) {
            assert("yellowSlugs"@.take("water"@.len() as int)[0] == "yellowSlugs"@[0]);
        }
    }
    assert(!is_prefix_of("geyser"@, "yellowSlugs"@)) by {
        if is_prefix_of("geyser"@, "yellowSlugs"@) {
            assert("yellowSlugs"@.take("geyser"@.len() as int)[0] == "yellowSlugs"@[0]);
        }
    }
    assert("yellowSlugs"@.len() != "greenSlugs"@.len());
}

proof fn lemma_collectible_layer_2()
    ensures
        layer_resource("purpleSlugs"@) == "purpleslug"@,
{
    reveal_strlit("bauxite");
    reveal_strlit("caterium");
    reveal_strlit("coal");
    reveal_strlit("copper");
    reveal_strlit("geyser");
    reveal_strlit("greenSlugs");
    reveal_strlit("iron");
    reveal_strlit("limestone");
    reveal_strlit("nitrogen");
    reveal_strlit("oil");
    reveal_strlit("oilWell");
    reveal_strlit("purpleSlugs");
    reveal_strlit("purpleslug");
    reveal_strlit("quartz");
    reveal_strlit("sam");
    reveal_strlit("sulfur");
    reveal_strlit("uranium");
    reveal_strlit("water");
    reveal_strlit("yellowSlugs");
    assert(!is_prefix_of("limestone"@, "purpleSlugs"@)) by {
        if is_prefix_of("limestone"@, "purpleSlugs"@) {
            assert("purpleSlugs"@.take("limestone"@.len() as int)[0] == "purpleSlugs"@[0]);
        }
    }
    assert(!is_prefix_of("iron"@, "purpleSlugs"@)) by {
        if is_prefix_of("iron"@, "purpleSlugs"@) {
            assert("purpleSlugs"@.take("iron"@.len() as int)[0] == "purpleSlugs"@[0]);
        }
    }
    assert(!is_prefix_of("copper"@, "purpleSlugs"@)) by {
        if is_prefix_of("copper"@, "purpleSlugs"@) {
            assert("purpleSlugs"@.take("copper"@.len() as int)[0] == "purpleSlugs"@[0]);
        }
    }
    assert(!is_prefix_of("caterium"@, "purpleSlugs"@)) by {
        if is_prefix_of("caterium"@, "purpleSlugs"@) {
            assert("purpleSlugs"@.take("caterium"@.len() as int)[0] == "purpleSlugs"@[0]);
        }
    }
    assert(!is_prefix_of("coal"@, "purpleSlugs"@)) by {
        if is_prefix_of("coal"@, "purpleSlugs"@) {
            assert("purpleSlugs"@.take("coal"@.len() as int)[0] == "purpleSlugs"@[0]);
        }
    }
    assert(!is_prefix_of("oilWell"@, "purpleSlugs"@)) by {
        if is_prefix_of("oilWell"@, "purpleSlugs"@) {
            assert("purpleSlugs"@.take("oilWell"@.len() as int)[0] == "purpleSlugs"@[0]);
        }
    }
    assert(!is_prefix_of("oil"@, "purpleSlugs"@)) by {
        if is_prefix_of("oil"@, "purpleSlugs"@) {
            assert("purpleSlugs"@.take("oil"@.len() as int)[0] == "purpleSlugs"@[0]);
        }
    }
    assert(!is_prefix_of("sulfur"@, "purpleSlugs"@)) by {
        if is_prefix_of("sulfur"@, "purpleSlugs"@) {
            assert("purpleSlugs"@.take("sulfur"@.len() as int)[0] == "purpleSlugs"@[0]);
        }
    }
    assert(!is_prefix_of("bauxite"@, "purpleSlugs"@)) by {
        if is_prefix_of("bauxite"@, "purpleSlugs"@) {
            assert("purpleSlugs"@.take("bauxite"@.len() as int)[0] == "purpleSlugs"@[0]);
        }
    }
    assert(!is_prefix_of("quartz"@, "purpleSlugs"@)) by {
        if is_prefix_of("quartz"@, "purpleSlugs"@) {
            assert("purpleSlugs"@.take("quartz"@.len() as int)[0] == "purpleSlugs"@[0]);
        }
    }
    assert(!is_prefix_of("uranium"@, "purpleSlugs"@)) by {
        if is_prefix_of("uranium"@, "purpleSlugs"@) {
            assert("purpleSlugs"@.take("uranium"@.len() as int)[0] == "purpleSlugs"@[0]);
        }
    }
    assert(!is_prefix_of("sam"@, "purpleSlugs"@)) by {
        if is_prefix_of("sam"@, "purpleSlugs"@) {
            assert("purpleSlugs"@.take("sam"@.len() as int)[0] == "purpleSlugs"@[0]);
        }
    }
    assert(!is_prefix_of("nitrogen"@, "purpleSlugs"@)) by {
        if is_prefix_of("nitrogen"@, "purpleSlugs"@) {
            assert("purpleSlugs"@.take("nitrogen"@.len() as int)[0] == "purpleSlugs"@[0]);
        }
    }
    assert(!is_prefix_of("water"@, "purpleSlugs"@)) by {
        if is_prefix_of("water"@, "purpleSlugs"@) {
            assert("purpleSlugs"@.take("water"@.len() as int)[0] == "purpleSlugs"@[0]);
        }
    }
    assert(!is_prefix_of("geyser"@, "purpleSlugs"@)) by {
        if is_prefix_of("geyser"@, "purpleSlugs"@) {
            assert("purpleSlugs"@.take("geyser"@.len() as int)[0] == "purpleSlugs"@[0]);
        }
    }
    assert("purpleSlugs"@.len() != "greenSlugs"@.len());
    assert("purpleSlugs"@[0] != "yellowSlugs"@[0]);
}

proof fn lemma_collectible_layer_3()
    ensures
        layer_resource("mercerSpheres"@) == "mercer"@,
{
    reveal_strlit("bauxite");
    reveal_strlit("caterium");
    reveal_strlit("coal");
    reveal_strlit("copper");
    reveal_strlit("geyser");
    reveal_strlit("greenSlugs");
    reveal_strlit("iron");
    reveal_strlit("limestone");
    reveal_strlit("mercer");
    reveal_strlit("mercerSpheres");
    reveal_strlit("nitrogen");
    reveal_strlit("oil");
    reveal_strlit("oilWell");
    reveal_strlit("purpleSlugs");
    reveal_strlit("quartz");
    reveal_strlit("sam");
    reveal_strlit("sulfur");
    reveal_strlit("uranium");
    reveal_strlit("water");
    reveal_strlit("yellowSlugs");
    assert(!is_prefix_of("limestone"@, "mercerSpheres"@)) by {
        if is_prefix_of("limestone"@, "mercerSpheres"@) {
            assert("mercerSpheres"@.take("limestone"@.len() as int)[0] == "mercerSpheres"@[0]);
        }
    }
    assert(!is_prefix_of("iron"@, "mercerSpheres"@)) by {
        if is_prefix_of("iron"@, "mercerSpheres"@) {
            assert("mercerSpheres"@.take("iron"@.len() as int)[0] == "mercerSpheres"@[0]);
        }
    }
    assert(!is_prefix_of("copper"@, "mercerSpheres"@)) by {
        if is_prefix_of("copper"@, "mercerSpheres"@) {
            assert("mercerSpheres"@.take("copper"@.len() as int)[0] == "mercerSpheres"@[0]);
        }
    }
    assert(!is_prefix_of("caterium"@, "mercerSpheres"@)) by {
        if is_prefix_of("caterium"@, "mercerSpheres"@) {
            assert("mercerSpheres"@.take("caterium"@.len() as int)[0] == "mercerSpheres"@[0]);
        }
    }
    assert(!is_prefix_of("coal"@, "mercerSpheres"@)) by {
        if is_prefix_of("coal"@, "mercerSpheres"@) {
            assert("mercerSpheres"@.take("coal"@.len() as int)[0] == "mercerSpheres"@[0]);
        }
    }
    assert(!is_prefix_of("oilWell"@, "mercerSpheres"@)) by {
        if is_prefix_of("oilWell"@, "mercerSpheres"@) {
            assert("mercerSpheres"@.take("oilWell"@.len() as int)[0] == "mercerSpheres"@[0]);
        }
    }
    assert(!is_prefix_of("oil"@, "mercerSpheres"@)) by {
        if is_prefix_of("oil"@, "mercerSpheres"@) {
            assert("mercerSpheres"@.take("oil"@.len() as int)[0] == "mercerSpheres"@[0]);
        }
    }
    assert(!is_prefix_of("sulfur"@, "mercerSpheres"@)) by {
        if is_prefix_of("sulfur"@, "mercerSpheres"@) {
            assert("mercerSpheres"@.take("sulfur"@.len() as int)[0] == "mercerSpheres"@[0]);
        }
    }
    assert(!is_prefix_of("bauxite"@, "mercerSpheres"@)) by {
        if is_prefix_of("bauxite"@, "mercerSpheres"@) {
            assert("mercerSpheres"@.take("bauxite"@.len() as int)[0] == "mercerSpheres"@[0]);
        }
    }
    assert(!is_prefix_of("quartz"@, "mercerSpheres"@)) by {
        if is_prefix_of("quartz"@, "mercerSpheres"@) {
            assert("mercerSpheres"@.take("quartz"@.len() as int)[0] == "mercerSpheres"@[0]);
        }
    }
    assert(!is_prefix_of("uranium"@, "mercerSpheres"@)) by {
        if is_prefix_of("uranium"@, "mercerSpheres"@) {
            assert("mercerSpheres"@.take("uranium"@.len() as int)[0] == "mercerSpheres"@[0]);
        }
    }
    assert(!is_prefix_of("sam"@, "mercerSpheres"@)) by {
        if is_prefix_of("sam"@, "mercerSpheres"@) {
            assert("mercerSpheres"@.take("sam"@.len() as int)[0] == "mercerSpheres"@[0]);
        }
    }
    assert(!is_prefix_of("nitrogen"@, "mercerSpheres"@)) by {
        if is_prefix_of("nitrogen"@, "mercerSpheres"@) {
            assert("mercerSpheres"@.take("nitrogen"@.len() as int)[0] == "mercerSpheres"@[0]);
        }
    }
    assert(!is_prefix_of("water"@, "mercerSpheres"@)) by {
        if is_prefix_of("water"@, "mercerSpheres"@) {
            assert("mercerSpheres"@.take("water"@.len() as int)[0] == "mercerSpheres"@[0]);
        }
    }
    assert(!is_prefix_of("geyser"@, "mercerSpheres"@)) by {
        if is_prefix_of("geyser"@, "mercerSpheres"@) {
            assert("mercerSpheres"@.take("geyser"@.len() as int)[0] == "mercerSpheres"@[0]);
        }
    }
    assert("mercerSpheres"@.len() != "greenSlugs"@.len());
    assert("mercerSpheres"@.len() != "yellowSlugs"@.len());
    assert("mercerSpheres"@.len() != "purpleSlugs"@.len());
}

proof fn lemma_collectible_layer_4()
    ensures
        layer_resource("somersloops"@) == "somersloop"@,
{
    reveal_strlit("bauxite");
    reveal_strlit("caterium");
    reveal_strlit("coal");
    reveal_strlit("copper");
    reveal_strlit("geyser");
    reveal_strlit("greenSlugs");
    reveal_strlit("iron");
    reveal_strlit("limestone");
    reveal_strlit("mercerSpheres");
    reveal_strlit("nitrogen");
    reveal_strlit("oil");
    reveal_strlit("oilWell");
    reveal_strlit("purpleSlugs");
    reveal_strlit("quartz");
    reveal_strlit("sam");
    reveal_strlit("somersloop");
    reveal_strlit("somersloops");
    reveal_strlit("sulfur");
    reveal_strlit("uranium");
    reveal_strlit("water");
    reveal_strlit("yellowSlugs");
    assert(!is_prefix_of("limestone"@, "somersloops"@)) by {
        if is_prefix_of("limestone"@, "somersloops"@) {
            assert("somersloops"@.take("limestone"@.len() as int)[0] == "somersloops"@[0]);
        }
    }
    assert(!is_prefix_of("iron"@, "somersloops"@)) by {
        if is_prefix_of("iron"@, "somersloops"@) {
            assert("somersloops"@.take("iron"@.len() as int)[0] == "somersloops"@[0]);
        }
    }
    assert(!is_prefix_of("copper"@, "somersloops"@)) by {
        if is_prefix_of("copper"@, "somersloops"@) {
            assert("somersloops"@.take("copper"@.len() as int)[0] == "somersloops"@[0]);
        }
    }
    assert(!is_prefix_of("caterium"@, "somersloops"@)) by {
        if is_prefix_of("caterium"@, "somersloops"@) {
            assert("somersloops"@.take("caterium"@.len() as int)[0] == "somersloops"@[0]);
        }
    }
    assert(!is_prefix_of("coal"@, "somersloops"@)) by {
        if is_prefix_of("coal"@, "somersloops"@) {
            assert("somersloops"@.take("coal"@.len() as int)[0] == "somersloops"@[0]);
        }
    }
    assert(!is_prefix_of("oilWell"@, "somersloops"@)) by {
        if is_prefix_of("oilWell"@, "somersloops"@) {
            assert("somersloops"@.take("oilWell"@.len() as int)[0] == "somersloops"@[0]);
        }
    }
    assert(!is_prefix_of("oil"@, "somersloops"@)) by {
        if is_prefix_of("oil"@, "somersloops"@) {
            assert("somersloops"@.take("oil"@.len() as int)[0] == "somersloops"@[0]);
        }
    }
    assert(!is_prefix_of("sulfur"@, "somersloops"@)) by {
        if is_prefix_of("sulfur"@, "somersloops"@) {
            assert("somersloops"@.take("sulfur"@.len() as int)[1] == "somersloops"@[1]);
        }
    }
    assert(!is_prefix_of("bauxite"@, "somersloops"@)) by {
        if is_prefix_of("bauxite"@, "somersloops"@) {
            assert("somersloops"@.take("bauxite"@.len() as int)[0] == "somersloops"@[0]);
        }
    }
    assert(!is_prefix_of("quartz"@, "somersloops"@)) by {
        if is_prefix_of("quartz"@, "somersloops"@) {
            assert("somersloops"@.take("quartz"@.len() as int)[0] == "somersloops"@[0]);
        }
    }
    assert(!is_prefix_of("uranium"@, "somersloops"@)) by {
        if is_prefix_of("uranium"@, "somersloops"@) {
            assert("somersloops"@.take("uranium"@.len() as int)[0] == "somersloops"@[0]);
        }
    }
    assert(!is_prefix_of("sam"@, "somersloops"@)) by {
        if is_prefix_of("sam"@, "somersloops"@) {
            assert("somersloops"@.take("sam"@.len() as int)[1] == "somersloops"@[1]);
        }
    }
    assert(!is_prefix_of("nitrogen"@, "somersloops"@)) by {
        if is_prefix_of("nitrogen"@, "somersloops"@) {
            assert("somersloops"@.take("nitrogen"@.len() as int)[0] == "somersloops"@[0]);
        }
    }
    assert(!is_prefix_of("water"@, "somersloops"@)) by {
        if is_prefix_of("water"@, "somersloops"@) {
            assert("somersloops"@.take("water"@.len() as int)[0] == "somersloops"@[0]);
        }
    }
    assert(!is_prefix_of("geyser"@, "somersloops"@)) by {
        if is_prefix_of("geyser"@, "somersloops"@) {
            assert("somersloops"@.take("geyser"@.len() as int)[0] == "somersloops"@[0]);
        }
    }
    assert("somersloops"@.len() != "greenSlugs"@.len());
    assert("somersloops"@[0] != "yellowSlugs"@[0]);
    assert("somersloops"@[0] != "purpleSlugs"@[0]);
    assert("somersloops"@.len() != "mercerSpheres"@.len());
}

proof fn lemma_collectible_layer_5()
    ensures
        layer_resource("hardDrives"@) == "harddrive"@,
{
    reveal_strlit("bauxite");
    reveal_strlit("caterium");
    reveal_strlit("coal");
    reveal_strlit("copper");
    reveal_strlit("geyser");
    reveal_strlit("greenSlugs");
    reveal_strlit("hardDrives");
    reveal_strlit("harddrive");
    reveal_strlit("iron");
    reveal_strlit("limestone");
    reveal_strlit("mercerSpheres");
    reveal_strlit("nitrogen");
    reveal_strlit("oil");
    reveal_strlit("oilWell");
    reveal_strlit("purpleSlugs");
    reveal_strlit("quartz");
    reveal_strlit("sam");
    reveal_strlit("somersloops");
    reveal_strlit("sulfur");
    reveal_strlit("uranium");
    reveal_strlit("water");
    reveal_strlit("yellowSlugs");
    assert(!is_prefix_of("limestone"@, "hardDrives"@)) by {
        if is_prefix_of("limestone"@, "hardDrives"@) {
            assert("hardDrives"@.take("limestone"@.len() as int)[0] == "hardDrives"@[0]);
        }
    }
    assert(!is_prefix_of("iron"@, "hardDrives"@)) by {
        if is_prefix_of("iron"@, "hardDrives"@) {
            assert("hardDrives"@.take("iron"@.len() as int)[0] == "hardDrives"@[0]);
        }
    }
    assert(!is_prefix_of("copper"@, "hardDrives"@)) by {
        if is_prefix_of("copper"@, "hardDrives"@) {
            assert("hardDrives"@.take("copper"@.len() as int)[0] == "hardDrives"@[0]);
        }
    }
    assert(!is_prefix_of("caterium"@, "hardDrives"@)) by {
        if is_prefix_of("caterium"@, "hardDrives"@) {
            assert("hardDrives"@.take("caterium"@.len() as int)[0] == "hardDrives"@[0]);
        }
    }
    assert(!is_prefix_of("coal"@, "hardDrives"@)) by {
        if is_prefix_of("coal"@, "hardDrives"@) {
            assert("hardDrives"@.take("coal"@.len() as int)[0] == "hardDrives"@[0]);
        }
    }
    assert(!is_prefix_of("oilWell"@, "hardDrives"@)) by {
        if is_prefix_of("oilWell"@, "hardDrives"@) {
            assert("hardDrives"@.take("oilWell"@.len() as int)[0] == "hardDrives"@[0]);
        }
    }
    assert(!is_prefix_of("oil"@, "hardDrives"@)) by {
        if is_prefix_of("oil"@, "hardDrives"@) {
            assert("hardDrives"@.take("oil"@.len() as int)[0] == "hardDrives"@[0]);
        }
    }
    assert(!is_prefix_of("sulfur"@, "hardDrives"@)) by {
        if is_prefix_of("sulfur"@, "hardDrives"@) {
            assert("hardDrives"@.take("sulfur"@.len() as int)[0] == "hardDrives"@[0]);
        }
    }
    assert(!is_prefix_of("bauxite"@, "hardDrives"@)) by {
        if is_prefix_of("bauxite"@, "hardDrives"@) {
            assert("hardDrives"@.take("bauxite"@.len() as int)[0] == "hardDrives"@[0]);
        }
    }
    assert(!is_prefix_of("quartz"@, "hardDrives"@)) by {
        if is_prefix_of("quartz"@, "hardDrives"@) {
            assert("hardDrives"@.take("quartz"@.len() as int)[0] == "hardDrives"@[0]);
        }
    }
    assert(!is_prefix_of("uranium"@, "hardDrives"@)) by {
        if is_prefix_of("uranium"@, "hardDrives"@) {
            assert("hardDrives"@.take("uranium"@.len() as int)[0] == "hardDrives"@[0]);
        }
    }
    assert(!is_prefix_of("sam"@, "hardDrives"@)) by {
        if is_prefix_of("sam"@, "hardDrives"@) {
            assert("hardDrives"@.take("sam"@.len() as int)[0] == "hardDrives"@[0]);
        }
    }
    assert(!is_prefix_of("nitrogen"@, "hardDrives"@)) by {
        if is_prefix_of("nitrogen"@, "hardDrives"@) {
            assert("hardDrives"@.take("nitrogen"@.len() as int)[0] == "hardDrives"@[0]);
        }
    }
    assert(!is_prefix_of("water"@, "hardDrives"@)) by {
        if is_prefix_of("water"@, "hardDrives"@) {
            assert("hardDrives"@.take("water"@.len() as int)[0] == "hardDrives"@[0]);
        }
    }
    assert(!is_prefix_of("geyser"@, "hardDrives"@)) by {
        if is_prefix_of("geyser"@, "hardDrives"@) {
            assert("hardDrives"@.take("geyser"@.len() as int)[0] == "hardDrives"@[0]);
        }
    }
    assert("hardDrives"@[0] != "greenSlugs"@[0]);
    assert("hardDrives"@.len() != "yellowSlugs"@.len());
    assert("hardDrives"@.len() != "purpleSlugs"@.len());
    assert("hardDrives"@.len() != "mercerSpheres"@.len());
    assert("hardDrives"@.len() != "somersloops"@.len());
}

/// Law: a layer whose id begins with a resource's name holds that resource (oil wells
/// hold oil, nitrogen and water layers hold the wells, geyser layers geysers), so all
/// of its markers are loaded as nodes of that resource; the six collectible layers hold
/// their collectibles.
pub proof fn lemma_resource_layers(id: Seq<char>)
    ensures
        is_prefix_of("limestone"@, id) ==> layer_resource(id) == "limestone"@,
        is_prefix_of("iron"@, id) ==> layer_resource(id) == "iron"@,
        is_prefix_of("copper"@, id) ==> layer_resource(id) == "copper"@,
        is_prefix_of("caterium"@, id) ==> layer_resource(id) == "caterium"@,
        is_prefix_of("coal"@, id) ==> layer_resource(id) == "coal"@,
        is_prefix_of("oil"@, id) ==> layer_resource(id) == "oil"@,
        is_prefix_of("sulfur"@, id) ==> layer_resource(id) == "sulfur"@,
        is_prefix_of("bauxite"@, id) ==> layer_resource(id) == "bauxite"@,
        is_prefix_of("quartz"@, id) ==> layer_resource(id) == "quartz"@,
        is_prefix_of("uranium"@, id) ==> layer_resource(id) == "uranium"@,
        is_prefix_of("sam"@, id) ==> layer_resource(id) == "sam"@,
        is_prefix_of("nitrogen"@, id) ==> layer_resource(id) == "nitrogenwell"@,
        is_prefix_of("water"@, id) ==> layer_resource(id) == "waterwell"@,
        is_prefix_of("geyser"@, id) ==> layer_resource(id) == "geyser"@,
        layer_resource("greenSlugs"@) == "blueslug"@,
        layer_resource("yellowSlugs"@) == "yellowslug"@,
        layer_resource("purpleSlugs"@) == "purpleslug"@,
        layer_resource("mercerSpheres"@) == "mercer"@,
        layer_resource("somersloops"@) == "somersloop"@,
        layer_resource("hardDrives"@) == "harddrive"@,
{
    lemma_layer_prefix_0(id);
    lemma_layer_prefix_1(id);
    lemma_layer_prefix_2(id);
    lemma_layer_prefix_3(id);
    lemma_layer_prefix_4(id);
    lemma_layer_prefix_5(id);
    lemma_layer_prefix_6(id);
    lemma_layer_prefix_7(id);
    lemma_layer_prefix_8(id);
    lemma_layer_prefix_9(id);
    lemma_layer_prefix_10(id);
    lemma_layer_prefix_11(id);
    lemma_layer_prefix_12(id);
    lemma_layer_prefix_13(id);
    lemma_collectible_layer_0();
    lemma_collectible_layer_1();
    lemma_collectible_layer_2();
    lemma_collectible_layer_3();
    lemma_collectible_layer_4();
    lemma_collectible_layer_5();
}

} // verus!
