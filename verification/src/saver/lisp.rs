//! Scenes as Lisp forms.
//!
//! Every form starts on a line of its own, indented by four spaces for each
//! level of nesting: `(camera (vector3 x y z) (view_port w h d))` and so on.

use vstd::prelude::*;
use crate::camera::{Camera, ViewPort};
use crate::color::Color;
use crate::light::{AmbiantLight, DirectionalLight, Light, OmniDirectionalLight};
use crate::material::Material;
use crate::math::Vector3;
use crate::saver::Piece;
use crate::scalar::Scalar;
use crate::scene::Scene;
use crate::sdf::{Node, SphereNode, UnionNode};

verus! {

/// A line break, and four spaces for each level.
pub open spec fn indent(level: nat) -> Seq<Piece>
    decreases level,
{
    if level == 0 {
        seq![Piece::Text("\n")]
    } else {
        indent((level - 1) as nat).push(Piece::Text("    "))
    }
}

/// The form `(head a b c)` on a line of its own.
pub open spec fn triple(level: nat, head: &'static str, a: Scalar, b: Scalar, c: Scalar) -> Seq<
    Piece,
> {
    indent(level) + seq![
        Piece::Text(head),
        Piece::Number(a),
        Piece::Text(" "),
        Piece::Number(b),
        Piece::Text(" "),
        Piece::Number(c),
        Piece::Text(")"),
    ]
}

pub open spec fn vector3(vector: Vector3, level: nat) -> Seq<Piece> {
    triple(level, "(vector3 ", vector.x, vector.y, vector.z)
}

pub open spec fn view_port(view_port: ViewPort, level: nat) -> Seq<Piece> {
    triple(level, "(view_port ", view_port.width, view_port.height, view_port.distance)
}

pub open spec fn color(color: Color, level: nat) -> Seq<Piece> {
    triple(level, "(color ", color.r, color.g, color.b)
}

pub open spec fn camera(camera: Camera, level: nat) -> Seq<Piece> {
    indent(level) + seq![Piece::Text("(camera ")] + vector3(camera.position, level + 1) + seq![
        Piece::Text(" "),
    ] + view_port(camera.view_port, level + 1) + seq![Piece::Text(")")]
}

pub open spec fn material(material: Material, level: nat) -> Seq<Piece> {
    indent(level) + seq![Piece::Text("(material ")] + color(material.color, level + 1) + indent(
        level + 1,
    ) + seq![Piece::Number(material.specular), Piece::Text(")")]
}

pub open spec fn sphere_node(sphere: SphereNode, level: nat) -> Seq<Piece> {
    indent(level) + seq![Piece::Text("(sphere ")] + vector3(sphere.position, level + 1) + indent(
        level + 1,
    ) + seq![Piece::Number(sphere.radius)] + material(sphere.material, level + 1) + seq![
        Piece::Text(")"),
    ]
}

/// A node, written at `level`: a sphere or a union.
pub open spec fn node(node: Node, level: nat) -> Seq<Piece>
    decreases node, 0nat,
{
    match node {
        Node::Sphere(sphere) => sphere_node(sphere, level),
        Node::Union(union) => union_node(union, level),
    }
}

/// The first `count` children of a union, each after a space and written
/// at `level`.
pub open spec fn union_children(union: UnionNode, count: nat, level: nat) -> Seq<Piece>
    decreases union, count,
{
    if count == 0 || count > union.nodes@.len() {
        Seq::empty()
    } else {
        union_children(union, (count - 1) as nat, level) + seq![Piece::Text(" ")] + node(
            union.nodes@[count - 1],
            level,
        )
    }
}

/// The form `(union (list child ...))`, the children one level deeper.
pub open spec fn union_node(union: UnionNode, level: nat) -> Seq<Piece>
    decreases union, union.nodes@.len() + 1,
{
    indent(level) + seq![Piece::Text("(union (list")] + union_children(
        union,
        union.nodes@.len(),
        level + 1,
    ) + seq![Piece::Text("))")]
}

/// How many levels below its own a node is written on.
pub open spec fn depth(node: Node) -> nat
    decreases node, 0nat,
{
    match node {
        Node::Sphere(_) => 2,
        Node::Union(union) => union_depth(union, union.nodes@.len()),
    }
}

/// How many levels below its own a union is written on, counting its
/// first `count` children only.
pub open spec fn union_depth(union: UnionNode, count: nat) -> nat
    decreases union, count,
{
    if count == 0 || count > union.nodes@.len() {
        0
    } else {
        let before = union_depth(union, (count - 1) as nat);
        let child = 1 + depth(union.nodes@[count - 1]);
        if before >= child {
            before
        } else {
            child
        }
    }
}

pub open spec fn ambiant_light(light: AmbiantLight, level: nat) -> Seq<Piece> {
    indent(level) + seq![Piece::Text("(ambiant")] + indent(level + 1) + seq![
        Piece::Number(light.intensity),
        Piece::Text(")"),
    ]
}

pub open spec fn omnidirectional_light(light: OmniDirectionalLight, level: nat) -> Seq<Piece> {
    indent(level) + seq![Piece::Text("(omnidirectional")] + indent(level + 1) + seq![
        Piece::Number(light.intensity),
    ] + vector3(light.position, level + 1) + seq![Piece::Text(")")]
}

pub open spec fn directional_light(light: DirectionalLight, level: nat) -> Seq<Piece> {
    indent(level) + seq![Piece::Text("(directional")] + indent(level + 1) + seq![
        Piece::Number(light.intensity),
    ] + vector3(light.direction, level + 1) + seq![Piece::Text(")")]
}

/// A light of a list that stands at `level`: its form is written one level
/// deeper than the list.
pub open spec fn light(light: Light, level: nat) -> Seq<Piece> {
    match light {
        Light::Ambiant(l) => ambiant_light(l, level + 1),
        Light::OmniDirectional(l) => omnidirectional_light(l, level + 1),
        Light::Directional(l) => directional_light(l, level + 1),
    }
}

/// The lights, each after a space.
pub open spec fn lights_items(lights: Seq<Light>, level: nat) -> Seq<Piece>
    decreases lights.len(),
{
    if lights.len() == 0 {
        Seq::empty()
    } else {
        lights_items(lights.drop_last(), level) + seq![Piece::Text(" ")] + light(
            lights.last(),
            level,
        )
    }
}

/// The form `(list light ...)`.
pub open spec fn lights(lights: Seq<Light>, level: nat) -> Seq<Piece> {
    indent(level) + seq![Piece::Text("(list")] + lights_items(lights, level) + seq![
        Piece::Text(")"),
    ]
}

/// The form `(scene camera root lights)`, the three parts one level deeper.
pub open spec fn scene(scene: Scene, level: nat) -> Seq<Piece> {
    indent(level) + seq![Piece::Text("(scene ")] + camera(scene.camera, level + 1) + seq![
        Piece::Text(" "),
    ] + node(scene.root, level + 1) + seq![Piece::Text(" ")] + lights(scene.lights@, level + 1)
        + seq![Piece::Text(")")]
}

/// Whether a scene can be written at `level`: no form of it would stand
/// deeper than the deepest level there is.
pub open spec fn scene_fits(scene: Scene, level: nat) -> bool {
    &&& level + 2 <= u32::MAX
    &&& level + 1 + depth(scene.root) <= u32::MAX
    &&& scene.lights@.len() > 0 ==> level + 3 <= u32::MAX
}

/// A union is written at least one level deeper than each of its children
/// needs.
pub proof fn lemma_union_depth_covers(union: UnionNode, count: nat, i: int)
    requires
        0 <= i < count <= union.nodes@.len(),
    ensures
        union_depth(union, count) >= 1 + depth(union.nodes@[i]),
    decreases count,
{
    if i < count - 1 {
        lemma_union_depth_covers(union, (count - 1) as nat, i);
    }
}

/// Writes scenes as Lisp forms.
#[derive(Clone, Copy, Debug)]
pub struct LispSaver {}

impl LispSaver {
    /// Starts a new line at `level`.
    pub fn write_indent(&self, out: &mut Vec<Piece>, level: u32)
        ensures
            final(out)@ == old(out)@ + indent(level as nat),
    {
        out.push(Piece::Text("\n"));
        let mut i: u32 = 0;
        while i < level
            invariant
                i <= level,
                out@ == old(out)@ + indent(i as nat),
            decreases level - i,
        {
            out.push(Piece::Text("    "));
            i += 1;
        }
    }

    fn write_triple(
        &self,
        out: &mut Vec<Piece>,
        head: &'static str,
        a: Scalar,
        b: Scalar,
        c: Scalar,
        level: u32,
    )
        ensures
            final(out)@ == old(out)@ + triple(level as nat, head, a, b, c),
    {
        self.write_indent(out, level);
        out.push(Piece::Text(head));
        out.push(Piece::Number(a));
        out.push(Piece::Text(" "));
        out.push(Piece::Number(b));
        out.push(Piece::Text(" "));
        out.push(Piece::Number(c));
        out.push(Piece::Text(")"));
    }

    /// Writes `(vector3 x y z)`.
    pub fn write_vector3(&self, out: &mut Vec<Piece>, vector: &Vector3, level: u32)
        ensures
            final(out)@ == old(out)@ + vector3(*vector, level as nat),
    {
        self.write_triple(out, "(vector3 ", vector.x, vector.y, vector.z, level);
    }

    /// Writes `(view_port width height distance)`.
    pub fn write_view_port(&self, out: &mut Vec<Piece>, view_port: &ViewPort, level: u32)
        ensures
            final(out)@ == old(out)@ + crate::saver::lisp::view_port(*view_port, level as nat),
    {
        self.write_triple(
            out,
            "(view_port ",
            view_port.width,
            view_port.height,
            view_port.distance,
            level,
        );
    }

    /// Writes `(color r g b)`.
    pub fn write_color(&self, out: &mut Vec<Piece>, color: &Color, level: u32)
        ensures
            final(out)@ == old(out)@ + crate::saver::lisp::color(*color, level as nat),
    {
        self.write_triple(out, "(color ", color.r, color.g, color.b, level);
    }

    /// Writes `(camera (vector3 ..) (view_port ..))`, the two inner forms one
    /// level deeper.
    pub fn write_camera(&self, out: &mut Vec<Piece>, camera: &Camera, level: u32)
        requires
            level < u32::MAX,
        ensures
            final(out)@ == old(out)@ + crate::saver::lisp::camera(*camera, level as nat),
    {
        self.write_indent(out, level);
        out.push(Piece::Text("(camera "));
        self.write_vector3(out, &camera.position, level + 1);
        out.push(Piece::Text(" "));
        self.write_view_port(out, &camera.view_port, level + 1);
        out.push(Piece::Text(")"));
    }

    /// Writes `(material (color ..) specular)`, the color and the exponent
    /// one level deeper.
    pub fn write_material(&self, out: &mut Vec<Piece>, material: &Material, level: u32)
        requires
            level < u32::MAX,
        ensures
            final(out)@ == old(out)@ + crate::saver::lisp::material(*material, level as nat),
    {
        self.write_indent(out, level);
        out.push(Piece::Text("(material "));
        self.write_color(out, &material.color, level + 1);
        self.write_indent(out, level + 1);
        out.push(Piece::Number(material.specular));
        out.push(Piece::Text(")"));
    }

    /// Writes `(sphere (vector3 ..) radius (material ..))`, the parts one
    /// level deeper.
    pub fn write_sphere_node(&self, out: &mut Vec<Piece>, node: &SphereNode, level: u32)
        requires
            level + 2 <= u32::MAX,
        ensures
            final(out)@ == old(out)@ + sphere_node(*node, level as nat),
    {
        self.write_indent(out, level);
        out.push(Piece::Text("(sphere "));
        self.write_vector3(out, &node.position, level + 1);
        self.write_indent(out, level + 1);
        out.push(Piece::Number(node.radius));
        self.write_material(out, &node.material, level + 1);
        out.push(Piece::Text(")"));
    }

    /// Writes `(union (list child ...))`, the children one level deeper.
    pub fn write_union_node(&self, out: &mut Vec<Piece>, node: &UnionNode, level: u32)
        requires
            level + union_depth(*node, node.nodes@.len()) <= u32::MAX,
        ensures
            final(out)@ == old(out)@ + union_node(*node, level as nat),
        decreases node, 0nat,
    {
        self.write_indent(out, level);
        out.push(Piece::Text("(union (list"));
        let ghost start = out@;
        let mut i: usize = 0;
        while i < node.nodes.len()
            invariant
                i <= node.nodes.len(),
                level + union_depth(*node, node.nodes@.len()) <= u32::MAX,
                out@ == start + union_children(*node, i as nat, (level + 1) as nat),
            decreases node.nodes.len() - i,
        {
            proof {
                lemma_union_depth_covers(*node, node.nodes@.len(), i as int);
            }
            out.push(Piece::Text(" "));
            self.write_node(out, &node.nodes[i], level + 1);
            i += 1;
        }
        out.push(Piece::Text("))"));
    }

    /// Writes a node: a sphere or a union.
    pub fn write_node(&self, out: &mut Vec<Piece>, node: &Node, level: u32)
        requires
            level + depth(*node) <= u32::MAX,
        ensures
            final(out)@ == old(out)@ + crate::saver::lisp::node(*node, level as nat),
        decreases node, 1nat,
    {
        match node {
            Node::Union(union) => self.write_union_node(out, union, level),
            Node::Sphere(sphere) => self.write_sphere_node(out, sphere, level),
        }
    }

    /// Writes `(ambiant intensity)`, the intensity one level deeper.
    pub fn write_ambiant_light(&self, out: &mut Vec<Piece>, light: &AmbiantLight, level: u32)
        requires
            level < u32::MAX,
        ensures
            final(out)@ == old(out)@ + ambiant_light(*light, level as nat),
    {
        self.write_indent(out, level);
        out.push(Piece::Text("(ambiant"));
        self.write_indent(out, level + 1);
        out.push(Piece::Number(light.intensity));
        out.push(Piece::Text(")"));
    }

    /// Writes `(omnidirectional intensity (vector3 ..))`, the parts one
    /// level deeper.
    pub fn write_omnidirectional_light(
        &self,
        out: &mut Vec<Piece>,
        light: &OmniDirectionalLight,
        level: u32,
    )
        requires
            level < u32::MAX,
        ensures
            final(out)@ == old(out)@ + omnidirectional_light(*light, level as nat),
    {
        self.write_indent(out, level);
        out.push(Piece::Text("(omnidirectional"));
        self.write_indent(out, level + 1);
        out.push(Piece::Number(light.intensity));
        self.write_vector3(out, &light.position, level + 1);
        out.push(Piece::Text(")"));
    }

    /// Writes `(directional intensity (vector3 ..))`, the parts one level
    /// deeper.
    pub fn write_directional_light(
        &self,
        out: &mut Vec<Piece>,
        light: &DirectionalLight,
        level: u32,
    )
        requires
            level < u32::MAX,
        ensures
            final(out)@ == old(out)@ + directional_light(*light, level as nat),
    {
        self.write_indent(out, level);
        out.push(Piece::Text("(directional"));
        self.write_indent(out, level + 1);
        out.push(Piece::Number(light.intensity));
        self.write_vector3(out, &light.direction, level + 1);
        out.push(Piece::Text(")"));
    }

    /// Writes a light of a list that stands at `level`.
    pub fn write_light(&self, out: &mut Vec<Piece>, light: &Light, level: u32)
        requires
            level + 2 <= u32::MAX,
        ensures
            final(out)@ == old(out)@ + crate::saver::lisp::light(*light, level as nat),
    {
        match light {
            Light::Ambiant(light) => self.write_ambiant_light(out, light, level + 1),
            Light::OmniDirectional(light) => self.write_omnidirectional_light(
                out,
                light,
                level + 1,
            ),
            Light::Directional(light) => self.write_directional_light(out, light, level + 1),
        }
    }

    /// Writes `(list light ...)`.
    pub fn write_lights(&self, out: &mut Vec<Piece>, lights: &Vec<Light>, level: u32)
        requires
            lights@.len() > 0 ==> level + 2 <= u32::MAX,
        ensures
            final(out)@ == old(out)@ + crate::saver::lisp::lights(lights@, level as nat),
    {
        self.write_indent(out, level);
        out.push(Piece::Text("(list"));
        let ghost start = out@;
        let mut i: usize = 0;
        while i < lights.len()
            invariant
                i <= lights.len(),
                lights@.len() > 0 ==> level + 2 <= u32::MAX,
                out@ == start + lights_items(lights@.take(i as int), level as nat),
            decreases lights.len() - i,
        {
            proof {
                assert(lights@.take(i + 1).drop_last() == lights@.take(i as int));
            }
            out.push(Piece::Text(" "));
            self.write_light(out, &lights[i], level);
            i += 1;
        }
        proof {
            assert(lights@.take(i as int) == lights@);
        }
        out.push(Piece::Text(")"));
    }

    /// Writes `(scene camera root lights)`, the three parts one level deeper.
    pub fn write_scene(&self, out: &mut Vec<Piece>, scene: &Scene, level: u32)
        requires
            scene_fits(*scene, level as nat),
        ensures
            final(out)@ == old(out)@ + crate::saver::lisp::scene(*scene, level as nat),
    {
        self.write_indent(out, level);
        out.push(Piece::Text("(scene "));
        self.write_camera(out, &scene.camera, level + 1);
        out.push(Piece::Text(" "));
        self.write_node(out, &scene.root, level + 1);
        out.push(Piece::Text(" "));
        self.write_lights(out, &scene.lights, level + 1);
        out.push(Piece::Text(")"));
    }

    /// Whether a union can be written at `level`.
    pub fn union_node_fits(&self, node: &UnionNode, level: u32) -> (fits: bool)
        ensures
            fits == (level + union_depth(*node, node.nodes@.len()) <= u32::MAX),
        decreases node, 0nat,
    {
        let mut fits = true;
        let mut i: usize = 0;
        while i < node.nodes.len()
            invariant
                i <= node.nodes.len(),
                fits == (level + union_depth(*node, i as nat) <= u32::MAX),
            decreases node.nodes.len() - i,
        {
            if level == u32::MAX {
                fits = false;
            } else if !self.node_fits(&node.nodes[i], level + 1) {
                fits = false;
            }
            i += 1;
        }
        fits
    }

    /// Whether a node can be written at `level`.
    pub fn node_fits(&self, node: &Node, level: u32) -> (fits: bool)
        ensures
            fits == (level + depth(*node) <= u32::MAX),
        decreases node, 1nat,
    {
        match node {
            Node::Union(union) => self.union_node_fits(union, level),
            Node::Sphere(_) => level <= u32::MAX - 2,
        }
    }

    /// The scene written from level zero, or nothing where it is nested too
    /// deep for that.
    pub fn save_scene(&self, scene: &Scene) -> (saved: Option<Vec<Piece>>)
        ensures
            (match saved {
                Some(out) => scene_fits(*scene, 0) && out@ == crate::saver::lisp::scene(*scene, 0),
                None => !scene_fits(*scene, 0),
            }),
    {
        if self.node_fits(&scene.root, 1) {
            let mut out: Vec<Piece> = Vec::new();
            self.write_scene(&mut out, scene, 0);
            Some(out)
        } else {
            None
        }
    }
}

} // verus!
