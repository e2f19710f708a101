use raytracer::camera::{scaled_row, Camera, ViewPort};
use raytracer::canvas::{Canvas, FrameBufferCanvas};
use raytracer::color::Color;
use raytracer::geometry::Sphere;
use raytracer::image::to_rgb24;
use raytracer::light::{
    compute_directional_light_intensity, AmbiantLight, DirectionalLight, Light,
    OmniDirectionalLight, Terms,
};
use raytracer::material::Material;
use raytracer::math::Vector3;
use raytracer::ray::{Hit, Ray};
use raytracer::render::render;
use raytracer::render::software::SoftwareRenderer;
use raytracer::render::RendererType;
use raytracer::scalar::Scalar;
use raytracer::scene::Scene;
use raytracer::sdf::{nearer, Node, Roots, SphereNode, UnionNode};

// The arithmetic that the library leaves to its caller, in single precision.

fn s(x: f32) -> Scalar {
    Scalar::from_bits(x.to_bits())
}

fn f(x: Scalar) -> f32 {
    f32::from_bits(x.to_bits())
}

fn v3(x: f32, y: f32, z: f32) -> Vector3 {
    Vector3::new(s(x), s(y), s(z))
}

fn xyz(v: Vector3) -> [f32; 3] {
    [f(v.x), f(v.y), f(v.z)]
}

fn dot(a: [f32; 3], b: [f32; 3]) -> f32 {
    a[0] * b[0] + a[1] * b[1] + a[2] * b[2]
}

fn length(a: [f32; 3]) -> f32 {
    dot(a, a).sqrt()
}

fn sub(a: [f32; 3], b: [f32; 3]) -> [f32; 3] {
    [a[0] - b[0], a[1] - b[1], a[2] - b[2]]
}

fn roots(sphere: &SphereNode, ray: &Ray) -> Roots {
    quadratic(sphere.position, sphere.radius, ray.origin, ray.direction)
}

fn line_roots(sphere: &Sphere, o: Vector3, d: Vector3) -> Roots {
    quadratic(sphere.center, sphere.radius, o, d)
}

fn quadratic(center: Vector3, radius: Scalar, o: Vector3, d: Vector3) -> Roots {
    let d = xyz(d);
    let co = sub(xyz(o), xyz(center));
    let radius = f(radius);
    let a = dot(d, d);
    let b = dot(co, d) * 2.0;
    let c = dot(co, co) - radius * radius;
    let delta = b * b - 4.0 * a * c;
    Roots {
        delta: s(delta),
        t1: s((-b + delta.sqrt()) / (2.0 * a)),
        t2: s((-b - delta.sqrt()) / (2.0 * a)),
    }
}

fn surface(sphere: &SphereNode, ray: &Ray, distance: Scalar) -> (Vector3, Vector3) {
    let o = xyz(ray.origin);
    let d = xyz(ray.direction);
    let t = f(distance);
    let p = [o[0] + d[0] * t, o[1] + d[1] * t, o[2] + d[2] * t];
    let n = sub(p, xyz(sphere.position));
    let l = length(n);
    (v3(p[0], p[1], p[2]), v3(n[0] / l, n[1] / l, n[2] / l))
}

fn aim(view_port: &ViewPort, u: u32, v: u32, width: u32, height: u32) -> (Scalar, Scalar) {
    let (cw, ch) = (width as f32, height as f32);
    (
        s((u as f32 - cw / 2.0) * f(view_port.width) / cw),
        s((scaled_row(v, width, height) as f32 - ch / 2.0) * f(view_port.height) / ch),
    )
}

fn toward(light: &OmniDirectionalLight, hit: &Hit) -> Vector3 {
    let l = sub(xyz(light.position), xyz(hit.position));
    v3(l[0], l[1], l[2])
}

fn terms(intensity: Scalar, direction: Vector3, hit: &Hit, inverse_direction: Vector3) -> Terms {
    let i = f(intensity);
    let n = xyz(hit.normal);
    let l = xyz(direction);
    let v = xyz(inverse_direction);
    let n_dot_l = dot(n, l);
    let k = n_dot_l * 2.0;
    let r = sub([n[0] * k, n[1] * k, n[2] * k], l);
    let r_dot_v = dot(r, v);
    Terms {
        n_dot_l: s(n_dot_l),
        diffuse: s(i * n_dot_l / (length(n) * length(l))),
        r_dot_v: s(r_dot_v),
        specular: s(i * (r_dot_v / (length(r) * length(v))).powf(f(hit.material.specular))),
    }
}

fn plus(a: Scalar, b: Scalar) -> Scalar {
    s(f(a) + f(b))
}

fn scale(color: Color, intensity: Scalar) -> Color {
    let i = f(intensity);
    Color::new(s(f(color.r) * i), s(f(color.g) * i), s(f(color.b) * i))
}

fn stretch(x: Scalar) -> Scalar {
    s(f(x) * 255.0)
}

fn quantize(x: Scalar) -> u8 {
    (f(x) * 255.0) as u8
}

fn sphere_at(x: f32, y: f32, z: f32, radius: f32, color: Color, specular: f32) -> SphereNode {
    SphereNode {
        position: v3(x, y, z),
        radius: s(radius),
        material: Material { color, specular: s(specular) },
    }
}

fn forward_from(x: f32, y: f32, z: f32) -> Ray {
    Ray { origin: v3(x, y, z), direction: v3(0.0, 0.0, 1.0) }
}

fn facing_hit(specular: f32) -> Hit {
    Hit {
        position: v3(0.0, 0.0, 4.0),
        normal: v3(0.0, 0.0, -1.0),
        distance: s(4.0),
        material: Material { color: Color::red(), specular: s(specular) },
    }
}

fn toward_eye() -> Vector3 {
    v3(0.0, 0.0, -1.0)
}

// Spheres.

#[test]
fn a_ray_at_the_center_hits_at_the_distance_less_the_radius() {
    let sphere = sphere_at(0.0, 0.0, 5.0, 1.0, Color::red(), -1.0);
    let hit = sphere.hit(&forward_from(0.0, 0.0, 0.0), &roots, &surface).expect("a hit");
    assert_eq!(f(hit.distance), 4.0);
    assert_eq!(hit.position, v3(0.0, 0.0, 4.0));
    assert_eq!(hit.normal, v3(0.0, 0.0, -1.0));
    assert_eq!(hit.material, sphere.material);
}

#[test]
fn the_distance_is_the_ray_parameter_not_a_length() {
    let sphere = sphere_at(0.0, 0.0, 5.0, 1.0, Color::red(), -1.0);
    let ray = Ray { origin: v3(0.0, 0.0, 0.0), direction: v3(0.0, 0.0, 2.0) };
    let hit = sphere.hit(&ray, &roots, &surface).expect("a hit");
    assert_eq!(f(hit.distance), 2.0);
    assert_eq!(hit.position, v3(0.0, 0.0, 4.0));
}

#[test]
fn a_ray_that_passes_beside_the_sphere_hits_nothing() {
    let sphere = sphere_at(0.0, 0.0, 5.0, 1.0, Color::red(), -1.0);
    assert!(sphere.hit(&forward_from(2.0, 0.0, 0.0), &roots, &surface).is_none());
    assert!(f(roots(&sphere, &forward_from(2.0, 0.0, 0.0)).delta) < 0.0);
}

#[test]
fn a_ray_that_touches_the_sphere_hits_it() {
    let sphere = sphere_at(0.0, 0.0, 5.0, 1.0, Color::red(), -1.0);
    let hit = sphere.hit(&forward_from(1.0, 0.0, 0.0), &roots, &surface).expect("a hit");
    assert_eq!(f(hit.distance), 5.0);
}

#[test]
fn a_ray_that_starts_inside_the_sphere_hits_nothing() {
    let sphere = sphere_at(0.0, 0.0, 0.0, 1.0, Color::red(), -1.0);
    let q = roots(&sphere, &forward_from(0.0, 0.0, 0.0));
    assert_eq!((f(q.t1), f(q.t2)), (1.0, -1.0));
    assert!(sphere.hit(&forward_from(0.0, 0.0, 0.0), &roots, &surface).is_none());
}

#[test]
fn a_sphere_behind_the_ray_is_not_hit() {
    let sphere = sphere_at(0.0, 0.0, -5.0, 1.0, Color::red(), -1.0);
    assert!(sphere.hit(&forward_from(0.0, 0.0, 0.0), &roots, &surface).is_none());
}

#[test]
fn a_ray_without_direction_has_no_roots_to_speak_of() {
    let sphere = sphere_at(0.0, 0.0, 5.0, 1.0, Color::red(), -1.0);
    let still = Ray { origin: v3(0.0, 0.0, 0.0), direction: v3(0.0, 0.0, 0.0) };
    let q = roots(&sphere, &still);
    assert!(f(q.t1).is_nan() && f(q.t2).is_nan());
    let hit = sphere.hit(&still, &roots, &surface).expect("neither root is negative");
    assert!(hit.distance.is_nan());
}

#[test]
fn entry_distance_is_the_smaller_root_unless_negative() {
    let q = |delta: f32, t1: f32, t2: f32| Roots { delta: s(delta), t1: s(t1), t2: s(t2) };
    assert_eq!(q(4.0, 6.0, 4.0).entry_distance(), Some(s(4.0)));
    assert_eq!(q(4.0, 4.0, 6.0).entry_distance(), Some(s(4.0)));
    assert_eq!(q(0.0, 5.0, 5.0).entry_distance(), Some(s(5.0)));
    assert_eq!(q(4.0, 0.0, 2.0).entry_distance(), Some(s(0.0)));
    assert_eq!(q(-1.0, 6.0, 4.0).entry_distance(), None);
    assert_eq!(q(4.0, 1.0, -1.0).entry_distance(), None);
    assert_eq!(q(4.0, -4.0, -6.0).entry_distance(), None);
    assert_eq!(q(f32::NAN, 6.0, 4.0).entry_distance(), Some(s(4.0)));
    assert_eq!(q(4.0, f32::NAN, 3.0).entry_distance(), Some(s(3.0)));
}

#[test]
fn a_line_meets_a_sphere_twice_or_at_infinity() {
    let sphere = Sphere::new(v3(0.0, 0.0, 5.0), s(1.0), Color::red());
    assert_eq!(sphere.center, v3(0.0, 0.0, 5.0));
    assert_eq!(sphere.radius, s(1.0));
    assert_eq!(sphere.color, Color::red());
    let forward = v3(0.0, 0.0, 1.0);
    let origin = v3(0.0, 0.0, 0.0);
    assert_eq!(sphere.intersect_ray(origin, forward, &line_roots), (s(6.0), s(4.0)));
    assert_eq!(sphere.distance_to(origin, forward, &line_roots), s(4.0));
    let beside = v3(2.0, 0.0, 0.0);
    assert_eq!(
        sphere.intersect_ray(beside, forward, &line_roots),
        (s(f32::INFINITY), s(f32::INFINITY))
    );
    assert_eq!(sphere.distance_to(beside, forward, &line_roots), s(f32::INFINITY));
    let inside = v3(0.0, 0.0, 5.0);
    assert_eq!(sphere.intersect_ray(inside, forward, &line_roots), (s(1.0), s(-1.0)));
    assert_eq!(sphere.distance_to(inside, forward, &line_roots), s(-1.0));
}

// Unions.

#[test]
fn union_returns_the_nearest_child_hit() {
    let a = sphere_at(0.0, 0.0, 6.0, 1.0, Color::red(), -1.0);
    let b = sphere_at(0.0, 0.0, 3.0, 1.0, Color::green(), -1.0);
    let c = sphere_at(9.0, 0.0, 3.0, 1.0, Color::blue(), -1.0);
    let ray = forward_from(0.0, 0.0, 0.0);
    assert_eq!(f(a.hit(&ray, &roots, &surface).expect("a hit").distance), 5.0);
    assert_eq!(f(b.hit(&ray, &roots, &surface).expect("a hit").distance), 2.0);
    assert!(c.hit(&ray, &roots, &surface).is_none());
    let union = UnionNode { nodes: vec![Node::Sphere(a), Node::Sphere(b), Node::Sphere(c)] };
    let hit = union.hit(&ray, &roots, &surface).expect("a hit");
    assert_eq!(f(hit.distance), 2.0);
    assert_eq!(hit.material.color, Color::green());
    assert_eq!(Some(hit), b.hit(&ray, &roots, &surface));
}

#[test]
fn union_hit_does_not_depend_on_the_order_of_distinct_hits() {
    let a = sphere_at(0.0, 0.0, 6.0, 1.0, Color::red(), -1.0);
    let b = sphere_at(0.0, 0.0, 3.0, 1.0, Color::green(), -1.0);
    let ray = forward_from(0.0, 0.0, 0.0);
    let one = UnionNode { nodes: vec![Node::Sphere(a), Node::Sphere(b)] };
    let other = UnionNode { nodes: vec![Node::Sphere(b), Node::Sphere(a)] };
    assert_eq!(one.hit(&ray, &roots, &surface), other.hit(&ray, &roots, &surface));
}

#[test]
fn union_of_no_children_hits_nothing() {
    let union = UnionNode { nodes: vec![] };
    assert!(union.hit(&forward_from(0.0, 0.0, 0.0), &roots, &surface).is_none());
    assert!(Node::Union(union).hit(&forward_from(0.0, 0.0, 0.0), &roots, &surface).is_none());
}

#[test]
fn union_of_children_that_are_all_missed_hits_nothing() {
    let union = UnionNode {
        nodes: vec![
            Node::Sphere(sphere_at(9.0, 0.0, 3.0, 1.0, Color::red(), -1.0)),
            Node::Union(UnionNode { nodes: vec![] }),
            Node::Sphere(sphere_at(0.0, 0.0, -3.0, 1.0, Color::red(), -1.0)),
        ],
    };
    assert!(union.hit(&forward_from(0.0, 0.0, 0.0), &roots, &surface).is_none());
}

#[test]
fn unions_nest() {
    let near = Node::Sphere(sphere_at(0.0, 0.0, 3.0, 1.0, Color::green(), -1.0));
    let far = Node::Sphere(sphere_at(0.0, 0.0, 6.0, 1.0, Color::red(), -1.0));
    let farther = Node::Sphere(sphere_at(0.0, 0.0, 9.0, 1.0, Color::blue(), -1.0));
    let tree = Node::Union(UnionNode {
        nodes: vec![farther, Node::Union(UnionNode { nodes: vec![far, near] })],
    });
    let hit = tree.hit(&forward_from(0.0, 0.0, 0.0), &roots, &surface).expect("a hit");
    assert_eq!(f(hit.distance), 2.0);
    assert_eq!(hit.material.color, Color::green());
}

#[test]
fn of_two_hits_at_one_distance_the_later_wins() {
    let red = sphere_at(0.0, 0.0, 3.0, 1.0, Color::red(), -1.0);
    let green = sphere_at(0.0, 0.0, 3.0, 1.0, Color::green(), -1.0);
    let union = UnionNode { nodes: vec![Node::Sphere(red), Node::Sphere(green)] };
    let hit = union.hit(&forward_from(0.0, 0.0, 0.0), &roots, &surface).expect("a hit");
    assert_eq!(hit.material.color, Color::green());
}

#[test]
fn nearer_keeps_a_hit_over_no_hit() {
    let hit = facing_hit(-1.0);
    let mut closer = hit;
    closer.distance = s(1.0);
    assert_eq!(nearer(None, None), None);
    assert_eq!(nearer(Some(hit), None), Some(hit));
    assert_eq!(nearer(None, Some(hit)), Some(hit));
    assert_eq!(nearer(Some(hit), Some(closer)), Some(closer));
    assert_eq!(nearer(Some(closer), Some(hit)), Some(closer));
}

// Lights.

#[test]
fn an_ambient_light_alone_gives_exactly_its_intensity() {
    let lights = vec![Light::Ambiant(AmbiantLight { intensity: s(0.3) })];
    let i = SoftwareRenderer {}.compute_light(&lights, &facing_hit(-1.0), toward_eye(), &toward, &terms, &plus);
    assert_eq!(i, s(0.3));
    let mut elsewhere = facing_hit(5.0);
    elsewhere.position = v3(7.0, -2.0, 1.0);
    elsewhere.normal = v3(0.0, 1.0, 0.0);
    let i = SoftwareRenderer {}.compute_light(&lights, &elsewhere, v3(1.0, 2.0, 3.0), &toward, &terms, &plus);
    assert_eq!(i, s(0.3));
    let alone = AmbiantLight { intensity: s(0.3) };
    assert_eq!(alone.compute_intensity(&elsewhere, v3(1.0, 2.0, 3.0)), s(0.3));
}

#[test]
fn no_lights_give_zero() {
    let lights: Vec<Light> = vec![];
    let i = SoftwareRenderer {}.compute_light(&lights, &facing_hit(-1.0), toward_eye(), &toward, &terms, &plus);
    assert_eq!(i, s(0.0));
}

#[test]
fn a_light_opposite_the_normal_gives_nothing() {
    let light = DirectionalLight { direction: v3(0.0, 0.0, 1.0), intensity: s(0.8) };
    let dull = light.compute_intensity(&facing_hit(-1.0), toward_eye(), &terms, &plus);
    assert_eq!(dull, s(0.0));
    let shiny = light.compute_intensity(&facing_hit(2.0), toward_eye(), &terms, &plus);
    assert_eq!(shiny, s(0.0));
}

#[test]
fn a_light_from_the_front_gives_the_cosine_of_its_angle() {
    let hit = facing_hit(-1.0);
    let straight = compute_directional_light_intensity(
        s(0.5),
        v3(0.0, 0.0, -1.0),
        &hit,
        toward_eye(),
        &terms,
        &plus,
    );
    assert_eq!(f(straight), 0.5);
    let longer = compute_directional_light_intensity(
        s(0.5),
        v3(0.0, 0.0, -2.0),
        &hit,
        toward_eye(),
        &terms,
        &plus,
    );
    assert_eq!(f(longer), 0.5);
    let slanted = compute_directional_light_intensity(
        s(0.5),
        v3(0.0, 3.0, -4.0),
        &hit,
        toward_eye(),
        &terms,
        &plus,
    );
    assert_eq!(f(slanted), 0.4);
}

#[test]
fn a_highlight_is_added_where_the_material_has_one() {
    let light = DirectionalLight { direction: v3(0.0, 0.0, -1.0), intensity: s(0.5) };
    let dull = light.compute_intensity(&facing_hit(-1.0), toward_eye(), &terms, &plus);
    assert_eq!(f(dull), 0.5);
    let shiny = light.compute_intensity(&facing_hit(2.0), toward_eye(), &terms, &plus);
    assert_eq!(f(shiny), 1.0);
    let below_sentinel = light.compute_intensity(&facing_hit(-3.0), toward_eye(), &terms, &plus);
    assert_eq!(f(below_sentinel), 0.5);
}

#[test]
fn a_highlight_fades_with_the_angle_to_the_eye() {
    // r = (0, 0, -1), v = (0, 3, -4): the cosine is 4/5, squared 16/25.
    let light = DirectionalLight { direction: v3(0.0, 0.0, -1.0), intensity: s(1.0) };
    let i = light.compute_intensity(&facing_hit(2.0), v3(0.0, 3.0, -4.0), &terms, &plus);
    assert_eq!(f(i), 1.0 + (4.0f32 / 5.0).powf(2.0));
}

#[test]
fn a_point_light_shines_from_where_it_stands() {
    let light = OmniDirectionalLight { position: v3(0.0, 0.0, 0.0), intensity: s(0.5) };
    let i = light.compute_intensity(&facing_hit(-1.0), toward_eye(), &toward, &terms, &plus);
    assert_eq!(f(i), 0.5);
    let behind = OmniDirectionalLight { position: v3(0.0, 0.0, 9.0), intensity: s(0.5) };
    let i = behind.compute_intensity(&facing_hit(-1.0), toward_eye(), &toward, &terms, &plus);
    assert_eq!(i, s(0.0));
    assert_eq!(toward(&light, &facing_hit(-1.0)), v3(0.0, 0.0, -4.0));
}

#[test]
fn lights_add_up_and_are_not_clamped() {
    let lights = vec![
        Light::Ambiant(AmbiantLight { intensity: s(0.5) }),
        Light::Directional(DirectionalLight { direction: v3(0.0, 0.0, -1.0), intensity: s(0.5) }),
        Light::OmniDirectional(OmniDirectionalLight {
            position: v3(0.0, 0.0, 0.0),
            intensity: s(0.25),
        }),
        Light::Directional(DirectionalLight { direction: v3(0.0, 0.0, 1.0), intensity: s(9.0) }),
    ];
    let i = SoftwareRenderer {}.compute_light(&lights, &facing_hit(-1.0), toward_eye(), &toward, &terms, &plus);
    assert_eq!(f(i), 1.25);
    for (light, expected) in lights.iter().zip([0.5f32, 0.5, 0.25, 0.0]) {
        let one = light.compute_intensity(&facing_hit(-1.0), toward_eye(), &toward, &terms, &plus);
        assert_eq!(f(one), expected);
    }
}

#[test]
fn the_highlight_is_switched_off_at_minus_one_and_below() {
    let with = |specular: f32| Material { color: Color::red(), specular: s(specular) };
    assert!(!with(-1.0).has_specular());
    assert!(!with(-1.5).has_specular());
    assert!(!with(f32::NEG_INFINITY).has_specular());
    assert!(!with(f32::NAN).has_specular());
    assert!(with(-0.99999994).has_specular());
    assert!(with(0.0).has_specular());
    assert!(with(50.0).has_specular());
    assert_eq!(
        Material::debug_material(),
        Material { color: Color::magenta(), specular: s(0.0) }
    );
}

// Rendering.

fn red_ball_scene() -> Scene {
    Scene {
        camera: Camera::default(),
        root: Node::Sphere(sphere_at(0.0, 0.0, 4.0, 1.0, Color::red(), -1.0)),
        lights: vec![Light::Ambiant(AmbiantLight { intensity: s(1.0) })],
    }
}

#[test]
fn a_red_ball_under_ambient_light_is_red_on_white() {
    let scene = red_ball_scene();
    let mut canvas = FrameBufferCanvas::new(8, 8);
    render(&scene, &mut canvas, &aim, &roots, &surface, &toward, &terms, &plus, &scale);
    assert_eq!(aim(&scene.camera.view_port, 4, 4, 8, 8), (s(0.0), s(0.0)));
    assert_eq!(aim(&scene.camera.view_port, 0, 0, 8, 8), (s(-0.5), s(-0.5)));
    assert_eq!(aim(&scene.camera.view_port, 6, 2, 8, 8), (s(0.25), s(-0.25)));
    assert_eq!(canvas.get_pixel(4, 4), Color::red());
    assert_eq!(canvas.get_pixel(0, 0), Color::white());
    assert_eq!(canvas.get_pixel(7, 7), Color::white());
    assert_eq!(canvas.width(), 8);
    assert_eq!(canvas.height(), 8);
}

#[test]
fn rendering_draws_every_pixel() {
    let scene = red_ball_scene();
    let mut canvas = FrameBufferCanvas::new(7, 5);
    render(&scene, &mut canvas, &aim, &roots, &surface, &toward, &terms, &plus, &scale);
    let renderer = SoftwareRenderer {};
    for y in 0..5 {
        for x in 0..7 {
            let color = canvas.get_pixel(x, y);
            assert_ne!(color, Color::magenta(), "({}, {})", x, y);
            let alone = renderer.render_pixel(
                &scene, x, y, 7, 5, &aim, &roots, &surface, &toward, &terms, &plus, &scale,
            );
            assert_eq!(color, alone, "({}, {})", x, y);
        }
    }
}

#[test]
fn rendering_twice_gives_the_same_picture() {
    let scene = Scene {
        camera: Camera::new(
            v3(0.0, 0.0, 0.0),
            ViewPort { width: s(1.0), height: s(1.0), distance: s(1.0) },
        ),
        root: Node::Union(UnionNode {
            nodes: vec![
                Node::Sphere(sphere_at(0.0, 0.0, 4.0, 1.0, Color::red(), 10.0)),
                Node::Sphere(sphere_at(0.5, 0.25, 3.0, 0.5, Color::green(), -1.0)),
            ],
        }),
        lights: vec![
            Light::Ambiant(AmbiantLight { intensity: s(0.2) }),
            Light::OmniDirectional(OmniDirectionalLight {
                position: v3(2.0, 1.0, 0.0),
                intensity: s(0.6),
            }),
            Light::Directional(DirectionalLight {
                direction: v3(1.0, 4.0, 4.0),
                intensity: s(0.2),
            }),
        ],
    };
    let mut first = FrameBufferCanvas::new(16, 12);
    let mut second = FrameBufferCanvas::new(16, 12);
    render(&scene, &mut first, &aim, &roots, &surface, &toward, &terms, &plus, &scale);
    SoftwareRenderer {}.render(&scene, &mut second, &aim, &roots, &surface, &toward, &terms, &plus, &scale);
    let mut colors = 0;
    for y in 0..12 {
        for x in 0..16 {
            assert_eq!(first.get_pixel(x, y), second.get_pixel(x, y), "({}, {})", x, y);
            if first.get_pixel(x, y) != Color::white() {
                colors += 1;
            }
        }
    }
    assert!(colors > 0);
}

#[test]
fn a_ray_that_hits_nothing_sees_white() {
    let scene = red_ball_scene();
    let renderer = SoftwareRenderer {};
    let miss = forward_from(5.0, 0.0, 0.0);
    assert_eq!(renderer.compute_color(&scene, &miss, &roots, &surface, &toward, &terms, &plus, &scale), Color::white());
    let hit = forward_from(0.0, 0.0, 0.0);
    assert_eq!(renderer.compute_color(&scene, &hit, &roots, &surface, &toward, &terms, &plus, &scale), Color::red());
}

#[test]
fn the_ray_of_a_pixel_runs_to_the_view_port() {
    // The ball fills the view from a view port that is near, and is a dot
    // in the middle from one that is far.
    let mut scene = red_ball_scene();
    scene.camera.view_port.distance = s(0.125);
    let renderer = SoftwareRenderer {};
    let corner = |scene: &Scene| {
        renderer.render_pixel(scene, 6, 2, 8, 8, &aim, &roots, &surface, &toward, &terms, &plus, &scale)
    };
    assert_eq!(corner(&scene), Color::white());
    scene.camera.view_port.distance = s(4.0);
    assert_eq!(corner(&scene), Color::red());
}

#[test]
fn the_ray_of_a_pixel_starts_at_the_camera() {
    let mut scene = red_ball_scene();
    scene.camera.position = v3(5.0, 0.0, 0.0);
    let renderer = SoftwareRenderer {};
    let color = renderer.render_pixel(&scene, 4, 4, 8, 8, &aim, &roots, &surface, &toward, &terms, &plus, &scale);
    assert_eq!(color, Color::white());
    scene.camera.position = v3(0.0, 0.0, 1.0);
    let color = renderer.render_pixel(&scene, 4, 4, 8, 8, &aim, &roots, &surface, &toward, &terms, &plus, &scale);
    assert_eq!(color, Color::red());
}

#[test]
fn an_empty_canvas_is_rendered_without_a_pixel() {
    let scene = red_ball_scene();
    let mut canvas = FrameBufferCanvas::new(0, 0);
    render(&scene, &mut canvas, &aim, &roots, &surface, &toward, &terms, &plus, &scale);
    assert_eq!((canvas.width(), canvas.height()), (0, 0));
}

#[test]
fn renderer_types_are_told_apart() {
    assert_ne!(RendererType::Software, RendererType::OpenGL);
}

#[test]
fn the_color_of_a_hit_is_its_material_scaled_by_the_light() {
    let mut scene = red_ball_scene();
    scene.lights = vec![
        Light::Ambiant(AmbiantLight { intensity: s(0.25) }),
        Light::Directional(DirectionalLight { direction: v3(0.0, 0.0, -1.0), intensity: s(0.5) }),
    ];
    scene.root = Node::Sphere(sphere_at(0.0, 0.0, 4.0, 1.0, Color::new(s(1.0), s(0.5), s(0.0)), -1.0));
    let renderer = SoftwareRenderer {};
    let color = renderer.compute_color(
        &scene, &forward_from(0.0, 0.0, 0.0), &roots, &surface, &toward, &terms, &plus, &scale,
    );
    assert_eq!(color, Color::new(s(0.75), s(0.375), s(0.0)));
    scene.lights.push(Light::Ambiant(AmbiantLight { intensity: s(1.0) }));
    let bright = renderer.compute_color(
        &scene, &forward_from(0.0, 0.0, 0.0), &roots, &surface, &toward, &terms, &plus, &scale,
    );
    assert_eq!(bright, Color::new(s(1.75), s(0.875), s(0.0)));
}

#[test]
fn a_highlight_is_seen_from_against_the_ray() {
    let mut scene = red_ball_scene();
    scene.lights =
        vec![Light::Directional(DirectionalLight { direction: v3(0.0, 0.0, -1.0), intensity: s(0.5) })];
    scene.root = Node::Sphere(sphere_at(0.0, 0.0, 4.0, 1.0, Color::red(), 2.0));
    let color = SoftwareRenderer {}.compute_color(
        &scene, &forward_from(0.0, 0.0, 0.0), &roots, &surface, &toward, &terms, &plus, &scale,
    );
    assert_eq!(color, Color::red());
    assert_eq!(v3(1.0, -2.0, 0.0).negate(), v3(-1.0, 2.0, -0.0));
}

// The camera.

#[test]
fn rows_are_scaled_by_height_over_width() {
    assert_eq!(scaled_row(0, 640, 480), 0);
    assert_eq!(scaled_row(1, 640, 480), 0);
    assert_eq!(scaled_row(2, 640, 480), 1);
    assert_eq!(scaled_row(479, 640, 480), 359);
    assert_eq!(scaled_row(5, 8, 8), 5);
    assert_eq!(scaled_row(3, 2, 4), 6);
}

#[test]
fn the_default_camera_looks_from_the_origin_through_a_unit_view_port() {
    let camera = Camera::default();
    assert_eq!(camera.position, v3(0.0, 0.0, 0.0));
    assert_eq!(camera.view_port, ViewPort { width: s(1.0), height: s(1.0), distance: s(1.0) });
    assert_eq!(Vector3::default(), v3(0.0, 0.0, 0.0));
    let moved = Camera::new(v3(1.0, 2.0, 3.0), camera.view_port);
    assert_eq!(moved.position, v3(1.0, 2.0, 3.0));
    assert_eq!(moved.view_port, camera.view_port);
}

// Images.

#[test]
fn an_image_has_the_top_row_first() {
    let mut canvas = FrameBufferCanvas::new(2, 3);
    for y in 0..3u32 {
        for x in 0..2u32 {
            let shade = (10 * y + x) as f32 / 255.0;
            canvas.set_pixel(x, y, Color::new(s(shade), s(shade + 0.5), s(1.0)));
        }
    }
    let bytes = to_rgb24(&canvas, &stretch);
    assert_eq!(bytes.len(), 18);
    let mut expected = vec![];
    for y in [2u32, 1, 0] {
        for x in 0..2u32 {
            let color = canvas.get_pixel(x, y);
            expected.push(quantize(color.r));
            expected.push(quantize(color.g));
            expected.push(quantize(color.b));
        }
    }
    assert_eq!(bytes, expected);
    assert_eq!(&bytes[0..3], &[20, 147, 255]);
    assert_eq!(&bytes[15..18], &[1, 128, 255]);
}

#[test]
fn an_image_of_an_empty_canvas_is_empty() {
    let canvas = FrameBufferCanvas::new(0, 3);
    assert!(to_rgb24(&canvas, &stretch).is_empty());
}

#[test]
fn a_channel_out_of_range_goes_to_the_nearer_end() {
    let mut canvas = FrameBufferCanvas::new(1, 1);
    canvas.set_pixel(0, 0, Color::new(s(1.75), s(-0.5), s(f32::NAN)));
    assert_eq!(to_rgb24(&canvas, &stretch), vec![255, 0, 0]);
    canvas.set_pixel(0, 0, Color::new(s(1.0), s(0.999), s(0.5)));
    assert_eq!(to_rgb24(&canvas, &stretch), vec![255, 254, 127]);
    assert_eq!(raytracer::image::quantize(&stretch, s(0.25)), 63);
}
