// Whole rays through whole scenes. The arithmetic between two decisions of
// the library is done here, on binary64 values.

use tiny_computer_graphics::raytracer::basics::clamp_to_unit;
use tiny_computer_graphics::raytracer::basics::positive_part;
use tiny_computer_graphics::raytracer::basics::Albedo;
use tiny_computer_graphics::raytracer::basics::Color;
use tiny_computer_graphics::raytracer::basics::Interval;
use tiny_computer_graphics::raytracer::basics::Position;
use tiny_computer_graphics::raytracer::basics::Vector;
use tiny_computer_graphics::raytracer::camera::pixel_of_index;
use tiny_computer_graphics::raytracer::scalar::Scalar;
use tiny_computer_graphics::raytracer::world::background::Backdrop;
use tiny_computer_graphics::raytracer::world::background::Background;
use tiny_computer_graphics::raytracer::world::background::DummyBackground;
use tiny_computer_graphics::raytracer::world::background::Sky;
use tiny_computer_graphics::raytracer::world::objects::box_3d::AABBox;
use tiny_computer_graphics::raytracer::world::objects::box_3d::Crossing;
use tiny_computer_graphics::raytracer::world::objects::light::Light;
use tiny_computer_graphics::raytracer::world::objects::material::Material;
use tiny_computer_graphics::raytracer::world::objects::sphere::GradientSphere;
use tiny_computer_graphics::raytracer::world::objects::sphere::Roots;
use tiny_computer_graphics::raytracer::world::objects::sphere::Sphere;
use tiny_computer_graphics::raytracer::world::objects::Visible;
use tiny_computer_graphics::raytracer::world::scene::is_outside;
use tiny_computer_graphics::raytracer::world::scene::ray_cast::leaves_along_normal;
use tiny_computer_graphics::raytracer::world::scene::ray_cast::Cast;
use tiny_computer_graphics::raytracer::world::scene::ray_cast::Lambertian;
use tiny_computer_graphics::raytracer::world::scene::ray_cast::MonteCarlo;
use tiny_computer_graphics::raytracer::world::scene::ray_cast::RayCastStrategy;
use tiny_computer_graphics::raytracer::world::scene::ray_cast::Secondary;
use tiny_computer_graphics::raytracer::world::scene::Scene;
use tiny_computer_graphics::raytracer::world::scene::SceneData;

type V3 = [f64; 3];

fn s(x: f64) -> Scalar {
    Scalar::from_bits(x.to_bits())
}

fn r(x: Scalar) -> f64 {
    f64::from_bits(x.to_bits())
}

fn position(p: V3) -> Position {
    Position::new(s(p[0]), s(p[1]), s(p[2]))
}

fn point(p: Position) -> V3 {
    [r(p.x), r(p.y), r(p.z)]
}

fn rgb(c: Color) -> V3 {
    [r(c.r), r(c.g), r(c.b)]
}

fn add(a: V3, b: V3) -> V3 {
    [a[0] + b[0], a[1] + b[1], a[2] + b[2]]
}

fn sub(a: V3, b: V3) -> V3 {
    [a[0] - b[0], a[1] - b[1], a[2] - b[2]]
}

fn scale(a: V3, k: f64) -> V3 {
    [a[0] * k, a[1] * k, a[2] * k]
}

fn dot(a: V3, b: V3) -> f64 {
    a[0] * b[0] + a[1] * b[1] + a[2] * b[2]
}

fn length(a: V3) -> f64 {
    dot(a, a).sqrt()
}

fn unit(a: V3) -> V3 {
    scale(a, 1. / length(a))
}

fn offsets(a: V3) -> Vector {
    Vector::new(s(a[0]), s(a[1]), s(a[2]))
}

#[derive(Clone, Copy)]
struct Ray {
    position: V3,
    dir: V3,
}

struct Hit<'a> {
    obj: &'a Visible,
    position: V3,
    is_outside: bool,
}

fn sphere_roots(sphere: &Sphere, ray: &Ray) -> Roots {
    let cq = sub(ray.position, point(sphere.center));
    let a = dot(ray.dir, ray.dir);
    let b = 2. * dot(ray.dir, cq);
    let c = dot(cq, cq) - r(sphere.radius).powi(2);
    let discriminant = b.powi(2) - 4. * a * c;
    Roots {
        discriminant: s(discriminant),
        near: s((-b - discriminant.sqrt()) / (2. * a)),
        far: s((-b + discriminant.sqrt()) / (2. * a)),
    }
}

fn box_crossings(bbox: &AABBox, ray: &Ray) -> [Crossing; 3] {
    let low = point(bbox.low());
    let high = point(bbox.high());
    [0, 1, 2].map(|i| Crossing {
        low: s((low[i] - ray.position[i]) / ray.dir[i]),
        high: s((high[i] - ray.position[i]) / ray.dir[i]),
    })
}

fn hit_by_ray(obj: &Visible, ray: &Ray, interval: &Interval) -> Option<Scalar> {
    match obj {
        Visible::Sphere(sphere) => Sphere::hit_by_ray(&sphere_roots(sphere, ray), interval),
        Visible::GradientSphere(gradient) => {
            GradientSphere::hit_by_ray(&sphere_roots(&gradient.0, ray), interval)
        }
        Visible::AABBox(bbox) => AABBox::hit_by_ray(&box_crossings(bbox, ray), interval),
    }
}

fn norm_of(obj: &Visible, p: V3) -> V3 {
    match obj {
        Visible::Sphere(sphere) => unit(sub(p, point(sphere.center))),
        Visible::GradientSphere(gradient) => unit(sub(p, point(gradient.0.center))),
        Visible::AABBox(bbox) => {
            let n = AABBox::norm_of(
                &offsets(sub(p, point(bbox.low()))),
                &offsets(sub(p, point(bbox.high()))),
            );
            [r(n.x), r(n.y), r(n.z)]
        }
    }
}

fn material_of(obj: &Visible, p: V3) -> Material {
    match obj {
        Visible::GradientSphere(gradient) => {
            let shade = scale(add(norm_of(obj, p), [1., 1., 1.]), 0.5);
            gradient.material_of(Color::new(s(shade[0]), s(shade[1]), s(shade[2])))
        }
        _ => obj.material(),
    }
}

fn facing_normal(hit: &Hit) -> V3 {
    let n = norm_of(hit.obj, hit.position);
    if hit.is_outside {
        n
    } else {
        scale(n, -1.)
    }
}

fn intersect<'a, B>(scene: &'a SceneData<B>, ray: &Ray) -> Option<Hit<'a>> {
    let interval = scene.interval();
    let hits: Vec<Option<Scalar>> =
        scene.objects.iter().map(|obj| hit_by_ray(obj, ray, &interval)).collect();
    let nearest = scene.intersect(&hits)?;
    let obj = &scene.objects[nearest.index];
    let position = add(ray.position, scale(ray.dir, r(nearest.distance)));
    let cosine = dot(ray.dir, norm_of(obj, position));
    Some(Hit { obj, position, is_outside: is_outside(s(cosine)) })
}

fn background<B: Background>(scene: &SceneData<B>, ray: &Ray) -> V3 {
    match scene.intersect_background() {
        Backdrop::Black => rgb(Color::black()),
        Backdrop::Blend { zenith, nadir } => {
            let a = ray.dir[1] * 0.5 + 0.5;
            add(scale(rgb(zenith), a), scale(rgb(nadir), 1. - a))
        }
    }
}

fn reflect(incoming: V3, n: V3) -> V3 {
    unit(sub(incoming, scale(n, 2. * dot(incoming, n))))
}

fn clamped(x: f64) -> f64 {
    r(clamp_to_unit(s(x)))
}

fn refract(incoming: V3, n: V3, n1: f64, n2: f64) -> V3 {
    let cos_theta1 = -clamped(dot(incoming, n));
    let sin_theta1 = clamped((1. - cos_theta1.powi(2)).sqrt());
    let sin_theta2 = clamped(n1 / n2 * sin_theta1);
    let cos_theta2 = clamped((1. - sin_theta2.powi(2)).sqrt());
    unit(add(scale(incoming, n1 / n2), scale(n, (n1 / n2) * cos_theta1 - cos_theta2)))
}

fn leaving(hit: &Hit, dir: V3) -> Ray {
    let n = facing_normal(hit);
    let side = if leaves_along_normal(s(dot(dir, n))) { n } else { scale(n, -1.) };
    Ray { position: add(hit.position, scale(side, 1e-3)), dir }
}

fn shadow_ray(hit: &Hit, light: V3) -> Ray {
    let to_light = unit(sub(light, hit.position));
    Ray { position: add(hit.position, scale(to_light, 1e-3)), dir: to_light }
}

fn direct_illumination<B>(scene: &SceneData<B>, ray: &Ray, hit: &Hit) -> (f64, f64) {
    let mut diffuse = 0.;
    let mut specular = 0.;
    let n = facing_normal(hit);
    for light in &scene.lights {
        let light_position = point(light.position);
        let to_light = unit(sub(light_position, hit.position));
        let light_distance = length(sub(light_position, hit.position));
        let cosine = dot(to_light, n);
        if !Lambertian::faces_light(s(cosine)) {
            continue;
        }
        let shadow = shadow_ray(hit, light_position);
        let blocker =
            intersect(scene, &shadow).map(|met| s(length(sub(met.position, shadow.position))));
        if Lambertian::is_shadowed(blocker, s(light_distance)) {
            continue;
        }
        let mirrored = scale(reflect(scale(to_light, -1.), n), -1.);
        let exponent = r(material_of(hit.obj, hit.position).specular_exponent);
        diffuse += r(light.intensity) * r(positive_part(s(cosine)));
        specular += r(light.intensity) * r(positive_part(s(dot(ray.dir, mirrored)))).powf(exponent);
    }
    (diffuse, specular)
}

fn render_lambertian<B: Background>(scene: &SceneData<B>, ray: &Ray, depth: usize) -> V3 {
    if Lambertian.is_exhausted(depth) {
        return rgb(Color::black());
    }
    let hit = intersect(scene, ray);
    let met = hit.as_ref().map(|hit| material_of(hit.obj, hit.position));
    match (Lambertian.cast_ray(depth, met), hit) {
        (Cast::Shade { reflective, refractive }, Some(hit)) => {
            let material = material_of(hit.obj, hit.position);
            let n = facing_normal(&hit);
            let reflective_color = match reflective {
                Secondary::Trace { depth } => {
                    render_lambertian(scene, &leaving(&hit, reflect(ray.dir, n)), depth)
                }
                Secondary::Background => background(scene, ray),
            };
            let refractive_color = match refractive {
                Secondary::Trace { depth } => {
                    let (n1, n2) = material.refraction_indices(hit.is_outside);
                    let dir = refract(ray.dir, n, r(n1), r(n2));
                    render_lambertian(scene, &leaving(&hit, dir), depth)
                }
                Secondary::Background => background(scene, ray),
            };
            let (diffuse, specular) = direct_illumination(scene, ray, &hit);
            let albedo: Albedo = material.albedo;
            let mut color = scale(scale(rgb(material.diffuse_color), diffuse), r(albedo.diffusive()));
            color = add(color, scale(scale(rgb(Color::white()), specular), r(albedo.specular())));
            color = add(color, scale(reflective_color, r(albedo.reflective())));
            add(color, scale(refractive_color, r(albedo.refractive())))
        }
        (Cast::Black, _) => rgb(Color::black()),
        _ => background(scene, ray),
    }
}

/// Follows a path of the stochastic strategy. In place of chance, the
/// directions in which the rays bounce off are given.
fn render_monte_carlo<B: Background>(
    caster: &MonteCarlo,
    scene: &SceneData<B>,
    ray: &Ray,
    depth: usize,
    bounces: &[V3],
) -> V3 {
    if caster.is_exhausted(depth) {
        return rgb(Color::black());
    }
    let hit = intersect(scene, ray);
    let met = hit.as_ref().map(|hit| material_of(hit.obj, hit.position));
    match (caster.cast_ray(depth, met), hit) {
        (Cast::Bounce { depth: next }, Some(hit)) => {
            let mut dir = unit(bounces[depth % bounces.len()]);
            if MonteCarlo::flips(s(dot(dir, facing_normal(&hit)))) {
                dir = scale(dir, -1.);
            }
            let bounced = Ray { position: hit.position, dir };
            scale(render_monte_carlo(caster, scene, &bounced, next, bounces), 0.5)
        }
        (Cast::Black, _) => rgb(Color::black()),
        _ => background(scene, ray),
    }
}

/// The ray through a pixel, for a camera at the origin that looks down the
/// negative z axis with a field of view of ninety degrees.
fn primary_ray(idx: usize, width: u32, height: u32) -> Ray {
    let (u, v) = pixel_of_index(idx, width);
    let (w, h) = (width as f64, height as f64);
    let x_ndc = (2. * u as f64 - w) / h;
    let y_ndc = (h - 2. * v as f64) / h;
    let tan_fov = (90f64 / 2.).to_radians().tan();
    Ray { position: [0., 0., 0.], dir: unit([x_ndc * tan_fov, y_ndc * tan_fov, -1.]) }
}

fn matte(color: V3) -> Material {
    Material::new(
        Color::new(s(color[0]), s(color[1]), s(color[2])),
        Albedo::new(s(1.), s(0.), s(0.), s(0.)),
        s(10.),
        s(1.),
    )
}

fn ball(center: V3, radius: f64, material: Material) -> Visible {
    Visible::Sphere(Sphere::new(position(center), s(radius), material))
}

fn lamp(at: V3, intensity: f64) -> Light {
    Light::new(position(at), s(intensity))
}

fn one_ball_under_a_lamp() -> Scene<DummyBackground, Lambertian> {
    Scene::default()
        .add_background(DummyBackground)
        .add_object(ball([0., -0.5, -5.], 1., matte([0.3, 0.1, 0.1])))
        .add_light(lamp([0., 10., -5.], 1.5))
}

#[test]
fn lit_ball_is_not_black_at_the_center_of_the_picture() {
    let scene = one_ball_under_a_lamp();
    let (width, height) = (64u32, 64u32);
    let center = (height / 2 * width + width / 2) as usize;
    let ray = primary_ray(center, width, height);
    assert_eq!(ray.dir, [0., 0., -1.]);

    let hit = intersect(&scene.scene_data, &ray).expect("the ray meets the ball");
    assert!(hit.is_outside);
    let (diffuse, specular) = direct_illumination(&scene.scene_data, &ray, &hit);
    assert!(diffuse > 0.);
    assert_eq!(specular * 0., 0.);

    let color = render_lambertian(&scene.scene_data, &ray, 0);
    assert!(color[0] > 0. && color[1] > 0. && color[2] > 0.);
    assert_eq!(color, scale([0.3, 0.1, 0.1], diffuse));
}

#[test]
fn ray_past_all_geometry_sees_exactly_the_background() {
    let scene = one_ball_under_a_lamp();
    let (width, height) = (64u32, 64u32);
    for idx in [0usize, 63, 64 * 63, 64 * 64 - 1] {
        let ray = primary_ray(idx, width, height);
        assert!(intersect(&scene.scene_data, &ray).is_none());
        let color = render_lambertian(&scene.scene_data, &ray, 0);
        let a = ray.dir[1] * 0.5 + 0.5;
        let expected = add(scale([0.6, 0.8, 0.4], a), scale([0.8, 0.8, 0.8], 1. - a));
        assert_eq!(color, expected);
    }

    // Without a background a ray that meets nothing is black.
    let bare: Scene<DummyBackground, Lambertian> =
        Scene::default().add_object(ball([0., -0.5, -5.], 1., matte([0.3, 0.1, 0.1])));
    let ray = primary_ray(0, width, height);
    assert_eq!(render_lambertian(&bare.scene_data, &ray, 0), [0., 0., 0.]);
}

#[test]
fn occluded_light_gives_exactly_nothing() {
    // The ray from the origin meets the first ball at (0, 0, -4). The lamp
    // stands behind the origin; the second ball stands between the two.
    let open: Scene<DummyBackground, Lambertian> = Scene::default()
        .add_background(DummyBackground)
        .add_object(ball([0., 0., -5.], 1., matte([0.4, 0.4, 0.3])))
        .add_light(lamp([0., 0., 10.], 1.5));
    let ray = Ray { position: [0., 0., 0.], dir: [0., 0., -1.] };

    let hit = intersect(&open.scene_data, &ray).expect("the ray meets the first ball");
    assert_eq!(hit.position, [0., 0., -4.]);
    let (diffuse, specular) = direct_illumination(&open.scene_data, &ray, &hit);
    assert_eq!(diffuse, 1.5);
    assert_eq!(specular, 1.5);

    let blocked = open.add_object(ball([0., 0., 3.], 1., matte([0.1, 0.1, 0.1])));
    let hit = intersect(&blocked.scene_data, &ray).expect("the ray meets the first ball");
    assert_eq!(hit.position, [0., 0., -4.]);
    assert_eq!(direct_illumination(&blocked.scene_data, &ray, &hit), (0., 0.));
    assert_eq!(render_lambertian(&blocked.scene_data, &ray, 0), [0., 0., 0.]);
}

#[test]
fn ball_behind_the_light_casts_no_shadow() {
    let scene: Scene<DummyBackground, Lambertian> = Scene::default()
        .add_object(ball([0., 0., -5.], 1., matte([0.4, 0.4, 0.3])))
        .add_object(ball([0., 0., 20.], 1., matte([0.1, 0.1, 0.1])))
        .add_light(lamp([0., 0., 10.], 1.5));
    let ray = Ray { position: [0., 0., 0.], dir: [0., 0., -1.] };
    let hit = intersect(&scene.scene_data, &ray).expect("the ray meets the first ball");
    assert_eq!(direct_illumination(&scene.scene_data, &ray, &hit).0, 1.5);
}

#[test]
fn nearer_of_two_balls_on_a_ray_is_met() {
    let scene: Scene<DummyBackground, Lambertian> = Scene::default()
        .add_object(ball([0., 0., -9.], 1., matte([0.1, 0.1, 0.1])))
        .add_object(ball([0., 0., -5.], 1., matte([0.4, 0.4, 0.3])))
        .add_object(ball([0., 0., -5.], 1., matte([0.9, 0.9, 0.9])));
    let ray = Ray { position: [0., 0., 0.], dir: [0., 0., -1.] };
    let hit = intersect(&scene.scene_data, &ray).expect("the ray meets a ball");
    assert_eq!(hit.position, [0., 0., -4.]);
    // Of the two balls in the same place the one added first is met.
    assert_eq!(r(material_of(hit.obj, hit.position).diffuse_color.r), 0.4);

    // Nothing is met beyond the view range.
    let short = scene.update_view_range(s(3.5));
    assert!(intersect(&short.scene_data, &ray).is_none());
}

#[test]
fn mirror_ball_shows_what_the_reflected_ray_sees() {
    let mirror = Material::new(
        Color::black(),
        Albedo::new(s(0.), s(0.), s(1.), s(0.)),
        s(1425.),
        s(1.),
    );
    let scene: Scene<Sky, Lambertian> =
        Scene::default().add_background(Sky).add_object(ball([0., 0., -5.], 1., mirror));
    // The ray meets the ball head on and goes back the way it came.
    let ray = Ray { position: [0., 0., 0.], dir: [0., 0., -1.] };
    let back = Ray { position: [0., 0., -4.], dir: [0., 0., 1.] };
    assert_eq!(
        render_lambertian(&scene.scene_data, &ray, 0),
        background(&scene.scene_data, &back)
    );
    // At the last depth the reflected ray is still cast, and is black.
    assert_eq!(render_lambertian(&scene.scene_data, &ray, 5), [0., 0., 0.]);
    assert_eq!(render_lambertian(&scene.scene_data, &ray, 6), [0., 0., 0.]);
}

#[test]
fn box_in_a_scene_is_met_at_its_near_face() {
    let bbox = AABBox::try_build(position([-1., -1., -7.]), position([1., 1., -5.]), Material::ivory())
        .unwrap();
    let scene: Scene<DummyBackground, Lambertian> = Scene::default()
        .add_object(Visible::AABBox(bbox))
        .add_light(lamp([0., 0., 10.], 2.));
    let ray = Ray { position: [0., 0., 0.], dir: [0., 0., -1.] };
    let hit = intersect(&scene.scene_data, &ray).expect("the ray meets the box");
    assert_eq!(hit.position, [0., 0., -5.]);
    assert_eq!(norm_of(hit.obj, hit.position), [0., 0., 1.]);
    assert!(hit.is_outside);
    assert_eq!(direct_illumination(&scene.scene_data, &ray, &hit).0, 2.);
}

#[test]
fn gradient_ball_is_colored_by_its_normal() {
    let scene: Scene<DummyBackground, Lambertian> = Scene::default()
        .add_object(Visible::GradientSphere(GradientSphere::new(position([0., 0., -5.]), s(1.))));
    let ray = Ray { position: [0., 0., 0.], dir: [0., 0., -1.] };
    let hit = intersect(&scene.scene_data, &ray).expect("the ray meets the ball");
    assert_eq!(rgb(material_of(hit.obj, hit.position).diffuse_color), [0.5, 0.5, 1.]);
}

#[test]
fn monte_carlo_with_bound_zero_is_black_on_any_hit() {
    let caster = MonteCarlo::new(0);
    let scene: Scene<Sky, MonteCarlo> = Scene::default()
        .add_background(Sky)
        .add_object(ball([0., 2., -5.], 2., matte([0.3, 0.1, 0.1])))
        .add_object(ball([0., -1000., 0.], 1000., matte([0.5, 0.5, 0.5])));
    let (width, height) = (32u32, 18u32);
    let bounces = [[0.3, 0.9, 0.1], [-0.5, 0.2, 0.7], [0.1, -0.8, -0.4]];
    let mut met = 0;
    for idx in 0..(width * height) as usize {
        let ray = primary_ray(idx, width, height);
        let color = render_monte_carlo(&caster, &scene.scene_data, &ray, 0, &bounces);
        if intersect(&scene.scene_data, &ray).is_some() {
            met += 1;
            assert_eq!(color, [0., 0., 0.]);
        } else {
            assert_eq!(color, background(&scene.scene_data, &ray));
        }
    }
    assert!(met > 0 && met < (width * height) as usize);
}

#[test]
fn monte_carlo_halves_the_light_at_every_bounce() {
    let caster = MonteCarlo::new(10);
    let scene: Scene<Sky, MonteCarlo> =
        Scene::default().add_background(Sky).add_object(ball([0., 0., -5.], 1., matte([0.3, 0.1, 0.1])));
    // The ray meets the ball once and bounces straight back into the sky.
    let ray = Ray { position: [0., 0., 0.], dir: [0., 0., -1.] };
    let back = Ray { position: [0., 0., -4.], dir: [0., 0., 1.] };
    let color = render_monte_carlo(&caster, &scene.scene_data, &ray, 0, &[[0., 0., 1.]]);
    assert_eq!(color, scale(background(&scene.scene_data, &back), 0.5));
}

#[test]
fn a_surface_of_index_one_bends_no_ray() {
    let air = Material::new(Color::white(), Albedo::new(s(0.), s(0.), s(0.), s(1.)), s(50.), s(1.));
    let n = [0., 1., 0.];
    for degrees in [0f64, 10., 30., 45., 60., 80., 89.] {
        let theta = degrees.to_radians();
        let incoming = [theta.sin(), -theta.cos(), 0.];
        for side in [true, false] {
            let (n1, n2) = air.refraction_indices(side);
            let bent = refract(incoming, n, r(n1), r(n2));
            for axis in 0..3 {
                assert!((bent[axis] - incoming[axis]).abs() <= 1e-6, "{degrees} degrees");
            }
            assert!((length(bent) - 1.).abs() <= 1e-6);
        }
    }
}

#[test]
fn a_ray_at_45_degrees_bends_by_the_law_of_snell() {
    let dense =
        Material::new(Color::white(), Albedo::new(s(0.), s(0.), s(0.), s(1.)), s(50.), s(1. / 0.9));
    let n = [0., 1., 0.];
    let theta = std::f64::consts::PI / 4.;
    let incoming = [theta.sin(), -theta.cos(), 0.];
    let (n1, n2) = dense.refraction_indices(true);
    assert_eq!((r(n1), r(n2)), (1., 1. / 0.9));

    let bent = refract(incoming, n, r(n1), r(n2));
    let expected = [0.636396, -0.771362, 0.];
    for axis in 0..3 {
        assert!((bent[axis] - expected[axis]).abs() < 1e-6);
    }
    assert!((length(bent) - 1.).abs() <= 1e-6);

    // Straight down nothing bends, whatever the index.
    let straight = refract([0., -1., 0.], n, 1., 0.5);
    assert_eq!(straight, [0., -1., 0.]);
}

#[test]
fn derived_directions_have_length_one() {
    let n = unit([0.2, 1., -0.3]);
    for toward in [[1., -1., 0.], [0.3, -2., 0.5], [-4., -0.1, 1.], [0., -1., 0.]] {
        let incoming = unit(toward);
        assert!((length(incoming) - 1.).abs() <= 1e-6);
        assert!((length(reflect(incoming, n)) - 1.).abs() <= 1e-6);
        for (n1, n2) in [(1., 1.5), (1.5, 1.), (1., 1.), (0.8, 1.)] {
            assert!((length(refract(incoming, n, n1, n2)) - 1.).abs() <= 1e-6);
        }
    }
}

#[test]
fn total_reflection_yields_no_nan() {
    // From glass into air beyond the critical angle the sine of the angle of
    // refraction would pass one.
    let n = [0., 1., 0.];
    for degrees in [45f64, 60., 80., 89.9] {
        let theta = degrees.to_radians();
        let bent = refract([theta.sin(), -theta.cos(), 0.], n, 1.5, 1.);
        assert!(bent.iter().all(|c| c.is_finite()), "{degrees} degrees");
        assert!((length(bent) - 1.).abs() <= 1e-6);
    }
}

#[test]
fn ray_from_inside_a_ball_meets_it_at_the_far_root() {
    // The origin lies inside the ball, half a unit from its center; the ray
    // runs through the center.
    let sphere = Sphere::new(position([0., 0., -0.5]), s(2.), matte([0.3, 0.1, 0.1]));
    let ray = Ray { position: [0., 0., 0.], dir: [0., 0., -1.] };
    let roots = sphere_roots(&sphere, &ray);
    assert_eq!((r(roots.near), r(roots.far)), (0.5 - 2., 0.5 + 2.));
    for interval in [
        Interval::full(),
        Interval::positive(),
        Interval::new(s(-10.), s(10.)),
        Interval::new(s(1e-3), s(1000.)),
    ] {
        assert_eq!(Sphere::hit_by_ray(&roots, &interval).map(r), Some(2.5));
    }

    let scene: Scene<DummyBackground, Lambertian> =
        Scene::default().add_object(Visible::Sphere(sphere));
    let hit = intersect(&scene.scene_data, &ray).expect("the ray meets the ball from inside");
    assert_eq!(hit.position, [0., 0., -2.5]);
    assert!(!hit.is_outside);
}
