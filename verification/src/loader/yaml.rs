//! Scenes described in YAML.
//!
//! A scene is a table of `camera`, `root` and `lights`. A node is a table
//! whose `type` is `sphere` or `union`; a light one whose `type` is
//! `ambiant`, `omnidirectional` or `directional`. Every number must be
//! written with a fraction or an exponent.

use vstd::prelude::*;
use vstd::string::*;
use crate::camera::{Camera, ViewPort};
use crate::color::Color;
use crate::light::{AmbiantLight, DirectionalLight, Light, OmniDirectionalLight};
use crate::loader::{numbers_read, read_numbers, Document, Entry};
use crate::material::Material;
use crate::math::Vector3;
use crate::scalar::Scalar;
use crate::scene::Scene;
use crate::sdf::{Node, SphereNode, UnionNode};

verus! {

/// The value named `key`, or a bad value where there is none.
pub open spec fn part(doc: Document<Scalar>, key: Seq<char>) -> Document<Scalar> {
    if doc.has(key) {
        doc.member(key)
    } else {
        Document::Bad
    }
}

/// The number that a document is, if it is a real.
pub open spec fn real_of(doc: Document<Scalar>) -> Option<Scalar> {
    match doc {
        Document::Real(x) => Some(x),
        _ => None,
    }
}

/// Whether a document is the string `text`.
pub open spec fn text_is(doc: Document<Scalar>, text: Seq<char>) -> bool {
    doc matches Document::Text(t) && t@ == text
}

/// The three numbers named `a`, `b` and `c`, if all three are there.
pub open spec fn reals_of(doc: Document<Scalar>, a: Seq<char>, b: Seq<char>, c: Seq<char>) -> Option<
    (Scalar, Scalar, Scalar),
> {
    match (real_of(part(doc, a)), real_of(part(doc, b)), real_of(part(doc, c))) {
        (Some(x), Some(y), Some(z)) => Some((x, y, z)),
        _ => None,
    }
}

pub open spec fn vector3_of(doc: Document<Scalar>) -> Option<Vector3> {
    match reals_of(doc, "x"@, "y"@, "z"@) {
        Some((x, y, z)) => Some(Vector3 { x, y, z }),
        None => None,
    }
}

pub open spec fn view_port_of(doc: Document<Scalar>) -> Option<ViewPort> {
    match reals_of(doc, "width"@, "height"@, "distance"@) {
        Some((width, height, distance)) => Some(ViewPort { width, height, distance }),
        None => None,
    }
}

pub open spec fn color_of(doc: Document<Scalar>) -> Option<Color> {
    match reals_of(doc, "r"@, "g"@, "b"@) {
        Some((r, g, b)) => Some(Color { r, g, b }),
        None => None,
    }
}

pub open spec fn camera_of(doc: Document<Scalar>) -> Option<Camera> {
    match (vector3_of(part(doc, "position"@)), view_port_of(part(doc, "view_port"@))) {
        (Some(position), Some(view_port)) => Some(Camera { position, view_port }),
        _ => None,
    }
}

pub open spec fn material_of(doc: Document<Scalar>) -> Option<Material> {
    match (color_of(part(doc, "color"@)), real_of(part(doc, "specular"@))) {
        (Some(color), Some(specular)) => Some(Material { color, specular }),
        _ => None,
    }
}

pub open spec fn sphere_node_of(doc: Document<Scalar>) -> Option<SphereNode> {
    match (
        vector3_of(part(doc, "position"@)),
        real_of(part(doc, "radius"@)),
        material_of(part(doc, "material"@)),
    ) {
        (Some(position), Some(radius), Some(material)) => Some(
            SphereNode { position, radius, material },
        ),
        _ => None,
    }
}

pub open spec fn ambiant_light_of(doc: Document<Scalar>) -> Option<AmbiantLight> {
    match real_of(part(doc, "intensity"@)) {
        Some(intensity) => Some(AmbiantLight { intensity }),
        None => None,
    }
}

pub open spec fn omnidirectional_light_of(doc: Document<Scalar>) -> Option<OmniDirectionalLight> {
    match (real_of(part(doc, "intensity"@)), vector3_of(part(doc, "position"@))) {
        (Some(intensity), Some(position)) => Some(OmniDirectionalLight { position, intensity }),
        _ => None,
    }
}

pub open spec fn directional_light_of(doc: Document<Scalar>) -> Option<DirectionalLight> {
    match (real_of(part(doc, "intensity"@)), vector3_of(part(doc, "direction"@))) {
        (Some(intensity), Some(direction)) => Some(DirectionalLight { direction, intensity }),
        _ => None,
    }
}

/// The light that a document describes, by its `type`.
pub open spec fn light_of(doc: Document<Scalar>) -> Option<Light> {
    let kind = part(doc, "type"@);
    if text_is(kind, "ambiant"@) {
        match ambiant_light_of(doc) {
            Some(light) => Some(Light::Ambiant(light)),
            None => None,
        }
    } else if text_is(kind, "omnidirectional"@) {
        match omnidirectional_light_of(doc) {
            Some(light) => Some(Light::OmniDirectional(light)),
            None => None,
        }
    } else if text_is(kind, "directional"@) {
        match directional_light_of(doc) {
            Some(light) => Some(Light::Directional(light)),
            None => None,
        }
    } else {
        None
    }
}

/// The lights that the items of a list describe, if each describes one.
pub open spec fn lights_of(items: Seq<Document<Scalar>>) -> Option<Seq<Light>> {
    if forall|i: int| 0 <= i < items.len() ==> light_of(#[trigger] items[i]) is Some {
        Some(Seq::new(items.len(), |i: int| light_of(items[i])->0))
    } else {
        None
    }
}

/// Whether a document describes `node`: by its `type` a sphere, with the
/// sphere's fields, or a union, whose `nodes` describe the children one by
/// one.
pub open spec fn describes_node(doc: Document<Scalar>, node: Node) -> bool
    decreases node,
{
    let kind = part(doc, "type"@);
    if text_is(kind, "union"@) {
        let items = part(doc, "nodes"@).items();
        &&& node matches Node::Union(union)
        &&& union.nodes@.len() == items.len()
        &&& forall|i: int|
            0 <= i < items.len() ==> describes_node(items[i], #[trigger] union.nodes@[i])
    } else if text_is(kind, "sphere"@) {
        node matches Node::Sphere(sphere) && sphere_node_of(doc) == Some(sphere)
    } else {
        false
    }
}

/// Whether the items of a list describe `nodes`, one by one.
pub open spec fn describes_nodes(items: Seq<Document<Scalar>>, nodes: Seq<Node>) -> bool {
    &&& nodes.len() == items.len()
    &&& forall|i: int| 0 <= i < items.len() ==> describes_node(items[i], #[trigger] nodes[i])
}

/// Whether a document describes no node at all.
pub open spec fn describes_no_node(doc: Document<Scalar>) -> bool {
    forall|node: Node| !#[trigger] describes_node(doc, node)
}

/// Whether a document describes `scene`: its `camera`, its `root` and its
/// `lights` describe the scene's.
pub open spec fn describes_scene(doc: Document<Scalar>, scene: Scene) -> bool {
    &&& camera_of(part(doc, "camera"@)) == Some(scene.camera)
    &&& describes_node(part(doc, "root"@), scene.root)
    &&& lights_of(part(doc, "lights"@).items()) == Some(scene.lights@)
}

/// Why a text gave no scene.
#[derive(Clone, Copy, Debug, PartialEq, Eq, Structural)]
pub enum LoadError {
    /// The text is no YAML.
    Syntax,
    /// The text holds no document.
    NoDocument,
    /// The first document describes no scene.
    NoScene,
}

/// `yaml_rust::Yaml`, a value of a parsed YAML text. It is carried about
/// as it is; what it holds is learned by copying it into a document.
#[verifier::external_type_specification]
#[verifier::external_body]
pub struct ExYaml(yaml_rust::Yaml);

/// The documents that a YAML text holds, or nothing where the text is no
/// YAML: what `yaml_rust::YamlLoader::load_from_str` makes of the text.
pub uninterp spec fn yaml_documents(source: Seq<char>) -> Option<Seq<Document<String>>>;

/// What a value of `yaml_rust::Yaml` holds, as a document: variant for
/// variant the same value, the entries of a table in the order of the map.
pub uninterp spec fn yaml_document(value: yaml_rust::Yaml) -> Document<String>;

/// The documents of a text, one by one.
pub open spec fn documents_of(values: Seq<yaml_rust::Yaml>) -> Seq<Document<String>> {
    Seq::new(values.len(), |i: int| yaml_document(values[i]))
}

/// `yaml_rust::ScanError`, the parser's report of a text that is no YAML.
#[verifier::external_type_specification]
#[verifier::external_body]
pub struct ExScanError(yaml_rust::ScanError);

/// Calls `yaml_rust::YamlLoader::load_from_str`, which parses a text into
/// the values of its documents or reports an error. The contract claims
/// that the parser is a function of the text: the same text holds the same
/// documents, or is refused.
#[verifier::external_body]
fn parse_yaml(source: &str) -> (r: Result<Vec<yaml_rust::Yaml>, yaml_rust::ScanError>)
    ensures
        (match r {
            Ok(values) => yaml_documents(source@) == Some(documents_of(values@)),
            Err(_) => yaml_documents(source@) is None,
        }),
{
    yaml_rust::YamlLoader::load_from_str(source)
}

/// Copies a value of `yaml_rust::Yaml` into a document, variant for
/// variant: a real keeps the text it was written with, an array becomes a
/// list of its items, a hash a table of its keys and values in the order of
/// the map. The contract gives the copy its name and claims no more.
#[verifier::external_body]
fn document_of(value: &yaml_rust::Yaml) -> (r: Document<String>)
    ensures
        r == yaml_document(*value),
{
    match value {
        yaml_rust::Yaml::Real(text) => Document::Real(text.clone()),
        yaml_rust::Yaml::Integer(i) => Document::Integer(*i),
        yaml_rust::Yaml::String(text) => Document::Text(text.clone()),
        yaml_rust::Yaml::Boolean(b) => Document::Boolean(*b),
        yaml_rust::Yaml::Array(items) => Document::List(items.iter().map(document_of).collect()),
        yaml_rust::Yaml::Hash(map) => Document::Table(
            map.iter().map(|(k, v)| Entry { key: document_of(k), value: document_of(v) }).collect(),
        ),
        yaml_rust::Yaml::Alias(n) => Document::Alias(*n),
        yaml_rust::Yaml::Null => Document::Null,
        yaml_rust::Yaml::BadValue => Document::Bad,
    }
}

/// The documents that a YAML text holds, their reals as they were written;
/// nothing where the text is no YAML.
pub fn parse_documents(source: &str) -> (r: Option<Vec<Document<String>>>)
    ensures
        (match r {
            Some(documents) => yaml_documents(source@) == Some(documents@),
            None => yaml_documents(source@) is None,
        }),
{
    match parse_yaml(source) {
        Ok(values) => {
            let mut documents: Vec<Document<String>> = Vec::new();
            let mut i: usize = 0;
            while i < values.len()
                invariant
                    i <= values.len(),
                    documents@.len() == i,
                    forall|j: int| 0 <= j < i ==> #[trigger] documents@[j] == yaml_document(values@[j]),
                decreases values.len() - i,
            {
                documents.push(document_of(&values[i]));
                i += 1;
            }
            assert(documents@ =~= documents_of(values@));
            Some(documents)
        },
        Err(_) => None,
    }
}

/// Whether a document describes no scene at all.
pub open spec fn describes_no_scene(doc: Document<Scalar>) -> bool {
    forall|scene: Scene| !#[trigger] describes_scene(doc, scene)
}

/// Reads scenes from parsed YAML documents.
#[derive(Clone, Copy, Debug)]
pub struct YamlLoader {}

/// The value named `key`, if the document is a table that has one.
fn field<'a>(data: &'a Document<Scalar>, key: &str) -> (found: Option<&'a Document<Scalar>>)
    ensures
        (match found {
            Some(value) => *value == part(*data, key@) && decreases_to!(data => value),
            None => part(*data, key@) is Bad,
        }),
{
    let name = String::from_str(key);
    data.get(&name)
}

/// The number named `key`, if there is one.
fn number(data: &Document<Scalar>, key: &str) -> (r: Option<Scalar>)
    ensures
        r == real_of(part(*data, key@)),
{
    match field(data, key) {
        Some(value) => value.as_real(),
        None => None,
    }
}

/// Whether the value named `key` is the string `text`.
fn named(data: &Document<Scalar>, key: &str, text: &str) -> (r: bool)
    ensures
        r == text_is(part(*data, key@), text@),
{
    match field(data, key) {
        Some(value) => match value.as_text() {
            Some(found) => {
                let wanted = String::from_str(text);
                *found == wanted
            },
            None => false,
        },
        None => false,
    }
}

/// The three numbers named `a`, `b` and `c`, if all three are there.
fn reals(data: &Document<Scalar>, a: &str, b: &str, c: &str) -> (r: Option<(Scalar, Scalar, Scalar)>)
    ensures
        r == reals_of(*data, a@, b@, c@),
{
    match (number(data, a), number(data, b), number(data, c)) {
        (Some(x), Some(y), Some(z)) => Some((x, y, z)),
        _ => None,
    }
}

impl YamlLoader {
    /// The vector of a table of `x`, `y` and `z`.
    pub fn parse_vector3(&self, data: &Document<Scalar>) -> (r: Option<Vector3>)
        ensures
            r == vector3_of(*data),
    {
        match reals(data, "x", "y", "z") {
            Some((x, y, z)) => Some(Vector3::new(x, y, z)),
            None => None,
        }
    }

    /// The view port of a table of `width`, `height` and `distance`.
    pub fn parse_view_port(&self, data: &Document<Scalar>) -> (r: Option<ViewPort>)
        ensures
            r == view_port_of(*data),
    {
        match reals(data, "width", "height", "distance") {
            Some((width, height, distance)) => Some(ViewPort { width, height, distance }),
            None => None,
        }
    }

    /// The color of a table of `r`, `g` and `b`.
    pub fn parse_color(&self, data: &Document<Scalar>) -> (r: Option<Color>)
        ensures
            r == color_of(*data),
    {
        match reals(data, "r", "g", "b") {
            Some((r, g, b)) => Some(Color::new(r, g, b)),
            None => None,
        }
    }

    /// The camera of a table of `position` and `view_port`.
    pub fn parse_camera(&self, data: &Document<Scalar>) -> (r: Option<Camera>)
        ensures
            r == camera_of(*data),
    {
        let position = match field(data, "position") {
            Some(value) => self.parse_vector3(value),
            None => None,
        };
        let view_port = match field(data, "view_port") {
            Some(value) => self.parse_view_port(value),
            None => None,
        };
        match (position, view_port) {
            (Some(position), Some(view_port)) => Some(Camera::new(position, view_port)),
            _ => None,
        }
    }

    /// The material of a table of `color` and `specular`.
    pub fn parse_material(&self, data: &Document<Scalar>) -> (r: Option<Material>)
        ensures
            r == material_of(*data),
    {
        let color = match field(data, "color") {
            Some(value) => self.parse_color(value),
            None => None,
        };
        match (color, number(data, "specular")) {
            (Some(color), Some(specular)) => Some(Material { color, specular }),
            _ => None,
        }
    }

    /// The sphere of a table of `position`, `radius` and `material`.
    pub fn parse_sphere_node(&self, data: &Document<Scalar>) -> (r: Option<SphereNode>)
        ensures
            r == sphere_node_of(*data),
    {
        let position = match field(data, "position") {
            Some(value) => self.parse_vector3(value),
            None => None,
        };
        let material = match field(data, "material") {
            Some(value) => self.parse_material(value),
            None => None,
        };
        match (position, number(data, "radius"), material) {
            (Some(position), Some(radius), Some(material)) => Some(
                SphereNode { position, radius, material },
            ),
            _ => None,
        }
    }

    /// The ambient light of a table with an `intensity`.
    pub fn parse_ambiant_light(&self, data: &Document<Scalar>) -> (r: Option<AmbiantLight>)
        ensures
            r == ambiant_light_of(*data),
    {
        match number(data, "intensity") {
            Some(intensity) => Some(AmbiantLight { intensity }),
            None => None,
        }
    }

    /// The point light of a table of `intensity` and `position`.
    pub fn parse_omnidirectional_light(&self, data: &Document<Scalar>) -> (r: Option<
        OmniDirectionalLight,
    >)
        ensures
            r == omnidirectional_light_of(*data),
    {
        let position = match field(data, "position") {
            Some(value) => self.parse_vector3(value),
            None => None,
        };
        match (number(data, "intensity"), position) {
            (Some(intensity), Some(position)) => Some(OmniDirectionalLight { position, intensity }),
            _ => None,
        }
    }

    /// The directional light of a table of `intensity` and `direction`.
    pub fn parse_directional_light(&self, data: &Document<Scalar>) -> (r: Option<DirectionalLight>)
        ensures
            r == directional_light_of(*data),
    {
        let direction = match field(data, "direction") {
            Some(value) => self.parse_vector3(value),
            None => None,
        };
        match (number(data, "intensity"), direction) {
            (Some(intensity), Some(direction)) => Some(DirectionalLight { direction, intensity }),
            _ => None,
        }
    }

    /// The light that a table describes, by its `type`.
    pub fn parse_ligth(&self, data: &Document<Scalar>) -> (r: Option<Light>)
        ensures
            r == light_of(*data),
    {
        if named(data, "type", "ambiant") {
            match self.parse_ambiant_light(data) {
                Some(light) => Some(Light::Ambiant(light)),
                None => None,
            }
        } else if named(data, "type", "omnidirectional") {
            match self.parse_omnidirectional_light(data) {
                Some(light) => Some(Light::OmniDirectional(light)),
                None => None,
            }
        } else if named(data, "type", "directional") {
            match self.parse_directional_light(data) {
                Some(light) => Some(Light::Directional(light)),
                None => None,
            }
        } else {
            None
        }
    }

    /// The lights that the items of a list describe. What is no list
    /// describes no lights.
    pub fn parse_ligths(&self, data: &Document<Scalar>) -> (r: Option<Vec<Light>>)
        ensures
            (match r {
                Some(lights) => lights_of(data.items()) == Some(lights@),
                None => lights_of(data.items()) is None,
            }),
    {
        let mut lights: Vec<Light> = Vec::new();
        match data {
            Document::List(items) => {
                let mut i: usize = 0;
                while i < items.len()
                    invariant
                        i <= items.len(),
                        data.items() == items@,
                        lights@.len() == i,
                        forall|j: int|
                            0 <= j < i ==> light_of(#[trigger] items@[j]) == Some(lights@[j]),
                    decreases items.len() - i,
                {
                    match self.parse_ligth(&items[i]) {
                        Some(light) => lights.push(light),
                        None => {
                            assert(light_of(items@[i as int]) is None);
                            return None;
                        },
                    }
                    i += 1;
                }
                proof {
                    assert(lights@ =~= lights_of(items@)->0);
                }
                Some(lights)
            },
            _ => {
                proof {
                    assert(lights@ =~= lights_of(data.items())->0);
                }
                Some(lights)
            },
        }
    }

    /// The nodes that the items of a list describe, if each describes one.
    pub fn parse_nodes(&self, items: &Vec<Document<Scalar>>) -> (r: Option<Vec<Node>>)
        ensures
            (match r {
                Some(nodes) => describes_nodes(items@, nodes@),
                None => exists|i: int| 0 <= i < items@.len() && describes_no_node(#[trigger] items@[i]),
            }),
        decreases items, 0nat,
    {
        let mut nodes: Vec<Node> = Vec::new();
        let mut i: usize = 0;
        while i < items.len()
            invariant
                i <= items.len(),
                nodes@.len() == i,
                forall|j: int| 0 <= j < i ==> describes_node(items@[j], #[trigger] nodes@[j]),
            decreases items.len() - i,
        {
            match self.parse_node(&items[i]) {
                Some(node) => nodes.push(node),
                None => {
                    assert(describes_no_node(items@[i as int]));
                    return None;
                },
            }
            i += 1;
        }
        Some(nodes)
    }

    /// The union of the nodes that the `nodes` of a table describe. A table
    /// without a list of that name describes a union without children.
    pub fn parse_union_node(&self, data: &Document<Scalar>) -> (r: Option<UnionNode>)
        ensures
            (match r {
                Some(union) => describes_nodes(part(*data, "nodes"@).items(), union.nodes@),
                None => exists|i: int|
                    0 <= i < part(*data, "nodes"@).items().len() && describes_no_node(
                        #[trigger] part(*data, "nodes"@).items()[i],
                    ),
            }),
        decreases data, 0nat,
    {
        match field(data, "nodes") {
            Some(Document::List(items)) => {
                assert(part(*data, "nodes"@).items() == items@);
                match self.parse_nodes(items) {
                    Some(nodes) => Some(UnionNode { nodes }),
                    None => {
                        proof {
                            let i = choose|i: int|
                                0 <= i < items@.len() && describes_no_node(#[trigger] items@[i]);
                            assert(describes_no_node(part(*data, "nodes"@).items()[i]));
                        }
                        None
                    },
                }
            },
            _ => {
                assert(part(*data, "nodes"@).items() =~= Seq::<Document<Scalar>>::empty());
                Some(UnionNode { nodes: Vec::new() })
            },
        }
    }

    /// The node that a table describes, by its `type`.
    pub fn parse_node(&self, data: &Document<Scalar>) -> (r: Option<Node>)
        ensures
            (match r {
                Some(node) => describes_node(*data, node),
                None => describes_no_node(*data),
            }),
        decreases data, 1nat,
    {
        if named(data, "type", "union") {
            match self.parse_union_node(data) {
                Some(union) => Some(Node::Union(union)),
                None => {
                    proof {
                        let items = part(*data, "nodes"@).items();
                        let i = choose|i: int|
                            0 <= i < items.len() && describes_no_node(#[trigger] items[i]);
                        assert forall|node: Node| !#[trigger] describes_node(*data, node) by {
                            if let Node::Union(union) = node {
                                if union.nodes@.len() == items.len() {
                                    assert(!describes_node(items[i], union.nodes@[i]));
                                }
                            }
                        }
                    }
                    None
                },
            }
        } else if named(data, "type", "sphere") {
            match self.parse_sphere_node(data) {
                Some(sphere) => Some(Node::Sphere(sphere)),
                None => None,
            }
        } else {
            None
        }
    }

    /// The scene that a table of `camera`, `root` and `lights` describes.
    pub fn parse_scene(&self, data: &Document<Scalar>) -> (r: Option<Scene>)
        ensures
            (match r {
                Some(scene) => describes_scene(*data, scene),
                None => describes_no_scene(*data),
            }),
    {
        let bad = Document::Bad;
        let camera = match field(data, "camera") {
            Some(value) => self.parse_camera(value),
            None => None,
        };
        let root = match field(data, "root") {
            Some(value) => self.parse_node(value),
            None => self.parse_node(&bad),
        };
        let lights = match field(data, "lights") {
            Some(value) => self.parse_ligths(value),
            None => self.parse_ligths(&bad),
        };
        match (camera, root, lights) {
            (Some(camera), Some(root), Some(lights)) => Some(Scene { camera, root, lights }),
            _ => None,
        }
    }

    /// The scene that the first of some documents describes.
    pub fn load_scene(&self, documents: &Vec<Document<Scalar>>) -> (r: Option<Scene>)
        ensures
            (match r {
                Some(scene) => documents@.len() > 0 && describes_scene(documents@[0], scene),
                None => documents@.len() > 0 ==> describes_no_scene(documents@[0]),
            }),
    {
        if documents.len() == 0 {
            None
        } else {
            self.parse_scene(&documents[0])
        }
    }

    /// Whether `r` is what a YAML text gives, its numbers read by `number`:
    /// the scene that its first document describes, or the reason why
    /// there is none.
    pub open spec fn loads<N: Fn(&String) -> Option<Scalar>>(
        source: Seq<char>,
        number: &N,
        r: Result<Scene, LoadError>,
    ) -> bool {
        match yaml_documents(source) {
            None => r == Err::<Scene, LoadError>(LoadError::Syntax),
            Some(documents) => if documents.len() == 0 {
                r == Err::<Scene, LoadError>(LoadError::NoDocument)
            } else {
                exists|read: Document<Scalar>| #[trigger]
                    numbers_read(documents[0], number, read) && match r {
                        Ok(scene) => describes_scene(read, scene),
                        Err(error) => error == LoadError::NoScene && describes_no_scene(read),
                    }
            },
        }
    }

    /// The scene that the first document of a YAML text describes.
    /// `number` reads a real from the text it was written with.
    pub fn load_scene_from_str<N: Fn(&String) -> Option<Scalar>>(
        &self,
        source: &str,
        number: &N,
    ) -> (r: Result<Scene, LoadError>)
        requires
            forall|text: &String| number.requires((text,)),
        ensures
            Self::loads(source@, number, r),
    {
        match parse_documents(source) {
            None => Err(LoadError::Syntax),
            Some(documents) => if documents.len() == 0 {
                Err(LoadError::NoDocument)
            } else {
                let read = read_numbers(&documents[0], number);
                match self.parse_scene(&read) {
                    Some(scene) => Ok(scene),
                    None => Err(LoadError::NoScene),
                }
            },
        }
    }
}

} // verus!
