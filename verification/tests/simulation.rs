use particle_sim::color::Color;
use particle_sim::gravity_well::{GravityWell, RADIUS};
use particle_sim::particle::{Motion, Particle};
use particle_sim::simulation::{Start, WasmApp};

type App = WasmApp<f64, f32, u32>;

fn new_app() -> App {
    let mut app = App::new(0.1, 90.0, 200.0);
    app.initialize(800, 600, 0);
    app
}

fn segment_of(x: f64, y: f64, vel_x: f64, vel_y: f64, scale: f64) -> [f32; 4] {
    [x as f32, y as f32, (x - vel_x * scale) as f32, (y - vel_y * scale) as f32]
}

fn spawn(app: &mut App, x: f64, y: f64, vel_x: f64, vel_y: f64) {
    let scale = app.get_particle_trail_scale();
    app.spawn_particle(x, y, vel_x, vel_y, segment_of(x, y, vel_x, vel_y, scale));
}

fn is_point_inside(well: &GravityWell<f64>, x: i32, y: i32) -> bool {
    let delta_x = (x as f64 - well.pos[0]).abs();
    let delta_y = (y as f64 - well.pos[1]).abs();
    nalgebra_glm::length(&nalgebra_glm::vec2(delta_x, delta_y)) <= RADIUS as f64
}

fn hits_at(app: &App, x: i32, y: i32) -> Vec<bool> {
    app.gravity_wells().iter().map(|well| is_point_inside(well, x, y)).collect()
}

fn positions(app: &App) -> Vec<[f64; 2]> {
    app.particles().iter().map(|p| p.pos).collect()
}

#[test]
fn a_new_simulation_is_empty() {
    let app = App::new(0.1, 90.0, 200.0);
    assert_eq!(app.get_particle_count(), 0);
    assert_eq!(app.gravity_wells().len(), 0);
    assert_eq!(app.width(), 0);
    assert_eq!(app.height(), 0);
    assert_eq!(app.get_particle_trail_scale(), 0.1);
    assert_eq!(app.get_gravity_well_mass(), 90.0);
    assert_eq!(app.default_well_mass(), 200.0);
    assert!(!app.borders_are_active());
    assert!(app.should_clear_screen());
    assert!(!app.renderer().is_ready());
    assert!(app.renderer().particle_vertex_array().is_empty());
    assert!(app.renderer().particle_color_array().is_empty());
}

#[test]
fn initialize_takes_the_size_and_readies_the_renderer() {
    let mut app = App::new(0.1, 90.0, 200.0);
    app.initialize(800, 600, 7);
    assert_eq!(app.width(), 800);
    assert_eq!(app.height(), 600);
    assert!(app.renderer().is_ready());
    assert_eq!(app.renderer().texture("not_found"), Some(&7));
    assert_eq!(app.get_particle_count(), 0);
}

#[test]
fn spawning_n_particles_gives_count_n() {
    let mut app = new_app();
    for i in 0..25 {
        assert_eq!(app.get_particle_count(), i);
        spawn(&mut app, i as f64, 2.0 * i as f64, 1.0, -1.0);
    }
    assert_eq!(app.get_particle_count(), 25);
}

#[test]
fn remove_particles_drops_the_oldest() {
    let mut app = new_app();
    for i in 0..10 {
        spawn(&mut app, i as f64, 0.0, 0.0, 0.0);
    }
    app.remove_particles(3);
    assert_eq!(app.get_particle_count(), 7);
    assert_eq!(app.particles()[0].pos, [3.0, 0.0]);
    assert_eq!(app.particles()[6].pos, [9.0, 0.0]);
    app.remove_particles(0);
    assert_eq!(app.get_particle_count(), 7);
    app.remove_particles(7);
    assert_eq!(app.get_particle_count(), 0);
}

#[test]
fn remove_particles_of_more_than_there_are_leaves_none() {
    let mut app = new_app();
    for i in 0..4 {
        spawn(&mut app, i as f64, 0.0, 0.0, 0.0);
    }
    app.remove_particles(5);
    assert_eq!(app.get_particle_count(), 0);
    assert!(app.renderer().particle_vertex_array().is_empty());
    assert!(app.renderer().particle_color_array().is_empty());
    app.remove_particles(usize::MAX);
    assert_eq!(app.get_particle_count(), 0);
}

#[test]
fn remove_particles_keeps_the_arrays_in_step() {
    let mut app = new_app();
    app.spawn_colored_particle(1.0, 2.0, 0.0, 0.0, Color::from_u32(0x01020304), [1.0, 2.0, 3.0, 4.0]);
    app.spawn_colored_particle(5.0, 6.0, 0.0, 0.0, Color::from_u32(0x0a0b0c0d), [5.0, 6.0, 7.0, 8.0]);
    app.spawn_colored_particle(9.0, 9.0, 0.0, 0.0, Color::from_u32(0x10203040), [9.0, 9.5, 8.0, 8.5]);
    app.remove_particles(1);
    assert_eq!(
        app.renderer().particle_vertex_array(),
        &vec![5.0f32, 6.0, 7.0, 8.0, 9.0, 9.5, 8.0, 8.5]
    );
    assert_eq!(
        app.renderer().particle_color_array(),
        &vec![0x0au8, 0x0b, 0x0c, 255, 0x0a, 0x0b, 0x0c, 0, 0x10, 0x20, 0x30, 255, 0x10, 0x20, 0x30, 0]
    );
}

#[test]
fn clear_particles_empties_the_simulation_and_the_arrays() {
    let mut app = new_app();
    for i in 0..6 {
        spawn(&mut app, i as f64, 1.0, 2.0, 3.0);
    }
    app.spawn_gravity_well(10.0, 10.0);
    assert_eq!(app.renderer().particle_vertex_array().len(), 24);
    assert_eq!(app.renderer().particle_color_array().len(), 48);
    app.clear_particles();
    assert_eq!(app.get_particle_count(), 0);
    assert!(app.renderer().particle_vertex_array().is_empty());
    assert!(app.renderer().particle_color_array().is_empty());
    assert_eq!(app.gravity_wells().len(), 1);
    app.clear_particles();
    assert_eq!(app.get_particle_count(), 0);
}

#[test]
fn clear_particles_before_initialize() {
    let mut app = App::new(0.1, 90.0, 200.0);
    app.spawn_particle(1.0, 1.0, 0.0, 0.0, [1.0, 1.0, 1.0, 1.0]);
    app.clear_particles();
    assert_eq!(app.get_particle_count(), 0);
    assert!(app.renderer().particle_vertex_array().is_empty());
    assert!(app.renderer().particle_color_array().is_empty());
}

#[test]
fn spawn_particle_stores_what_it_was_given() {
    let mut app = new_app();
    app.spawn_particle(3.5, -4.25, 80.0, -80.0, [3.5, -4.25, -4.5, 3.75]);
    assert_eq!(app.get_particle_count(), 1);
    let particle = &app.particles()[0];
    assert_eq!(particle.pos, [3.5, -4.25]);
    assert_eq!(particle.vel, [80.0, -80.0]);
    assert_eq!(particle.color.a, 0xff);
    assert_eq!(app.renderer().particle_vertex_array(), &vec![3.5f32, -4.25, -4.5, 3.75]);
    let c = particle.color;
    assert_eq!(app.renderer().particle_color_array(), &vec![c.r, c.g, c.b, 255, c.r, c.g, c.b, 0]);
}

#[test]
fn spawned_particles_are_opaque() {
    let mut app = new_app();
    for i in 0..200 {
        spawn(&mut app, i as f64, 0.0, 0.0, 0.0);
    }
    assert!(app.particles().iter().all(|p| p.color.a == 255));
    let first = app.particles()[0].color;
    assert!(app.particles().iter().any(|p| p.color != first));
}

#[test]
fn spawn_colored_particle_packs_the_colour_for_both_ends() {
    let mut app = new_app();
    app.spawn_colored_particle(1.0, 2.0, 3.0, 4.0, Color { r: 9, g: 8, b: 7, a: 6 }, [1.0, 2.0, 0.7, 1.6]);
    assert_eq!(
        app.particles()[0],
        Particle { pos: [1.0, 2.0], vel: [3.0, 4.0], color: Color { r: 9, g: 8, b: 7, a: 6 } }
    );
    assert_eq!(app.renderer().particle_color_array(), &vec![9u8, 8, 7, 255, 9, 8, 7, 0]);
    assert_eq!(app.renderer().particle_vertex_array(), &vec![1.0f32, 2.0, 0.7, 1.6]);
}

#[test]
fn initialize_particles_spawns_one_for_each_start() {
    let mut app = new_app();
    spawn(&mut app, -1.0, -1.0, 0.0, 0.0);
    let starts: Vec<Start<f64, f32>> = (0..5)
        .map(|i| Start {
            motion: Motion { pos: [i as f64, 10.0], vel: [0.5, -0.5] },
            segment: [i as f32, 10.0, i as f32 - 1.0, 11.0],
        })
        .collect();
    app.initialize_particles(&starts);
    assert_eq!(app.get_particle_count(), 6);
    for i in 0..5 {
        let particle = &app.particles()[i + 1];
        assert_eq!(particle.pos, [i as f64, 10.0]);
        assert_eq!(particle.vel, [0.5, -0.5]);
        assert_eq!(particle.color.a, 255);
        assert_eq!(
            app.renderer().particle_vertex_array()[4 * (i + 1)..4 * (i + 2)],
            [i as f32, 10.0, i as f32 - 1.0, 11.0]
        );
    }
    app.initialize_particles(&Vec::new());
    assert_eq!(app.get_particle_count(), 6);
}

#[test]
fn a_new_well_has_the_default_mass() {
    let mut app = new_app();
    assert_eq!(app.get_gravity_well_mass(), 90.0);
    assert_eq!(app.default_well_mass(), 200.0);
    app.spawn_gravity_well(100.0, 150.0);
    app.set_gravity_well_mass(12.5);
    app.spawn_gravity_well(1.0, 2.0);
    assert_eq!(
        app.gravity_wells(),
        &vec![
            GravityWell { pos: [100.0, 150.0], rotation_deg: 0, mass: 200.0, is_selected: false },
            GravityWell { pos: [1.0, 2.0], rotation_deg: 0, mass: 200.0, is_selected: false },
        ]
    );
    assert_eq!(app.get_gravity_well_mass(), 12.5);
    assert_eq!(app.default_well_mass(), 200.0);
}

#[test]
fn the_default_mass_is_the_one_given_at_the_start() {
    let mut app = App::new(0.1, 90.0, 55.5);
    app.spawn_gravity_well(3.0, 4.0);
    app.set_gravity_well_mass(200.0);
    app.spawn_gravity_well(5.0, 6.0);
    let masses: Vec<f64> = app.gravity_wells().iter().map(|well| well.mass).collect();
    assert_eq!(masses, vec![55.5, 55.5]);
    assert_eq!(app.gravity_wells().len(), 2);
    assert_eq!(app.gravity_wells()[1].pos, [5.0, 6.0]);
    assert_eq!(app.gravity_wells()[1].rotation_deg, 0);
    assert!(!app.gravity_wells()[1].is_selected);
}

#[test]
fn a_click_on_a_well_selects_it() {
    let mut app = new_app();
    app.spawn_gravity_well(100.0, 100.0);
    let hits = hits_at(&app, 100, 100);
    assert!(app.try_selecting(&hits));
    assert!(app.gravity_wells()[0].is_selected);
}

#[test]
fn a_click_away_from_every_well_selects_none() {
    let mut app = new_app();
    app.spawn_gravity_well(100.0, 100.0);
    let hits = hits_at(&app, 200, 200);
    assert!(!app.try_selecting(&hits));
    assert!(!app.gravity_wells()[0].is_selected);
}

#[test]
fn a_click_on_the_rim_of_a_well_hits() {
    let mut app = new_app();
    app.spawn_gravity_well(100.0, 100.0);
    let hits = hits_at(&app, 120, 100);
    assert!(app.try_selecting(&hits));
    app.release_selection();
    let hits = hits_at(&app, 121, 100);
    assert!(!app.try_selecting(&hits));
    let hits = hits_at(&app, 115, 115);
    assert!(!app.try_selecting(&hits));
}

#[test]
fn only_the_first_well_that_is_hit_is_selected() {
    let mut app = new_app();
    app.spawn_gravity_well(300.0, 300.0);
    app.spawn_gravity_well(100.0, 100.0);
    app.spawn_gravity_well(105.0, 100.0);
    let hits = hits_at(&app, 102, 100);
    assert_eq!(hits, vec![false, true, true]);
    assert!(app.try_selecting(&hits));
    let selected: Vec<bool> = app.gravity_wells().iter().map(|w| w.is_selected).collect();
    assert_eq!(selected, vec![false, true, false]);
}

#[test]
fn selecting_twice_adds_to_the_selection() {
    let mut app = new_app();
    app.spawn_gravity_well(100.0, 100.0);
    app.spawn_gravity_well(400.0, 400.0);
    assert!(app.try_selecting(&vec![true, false]));
    assert!(app.try_selecting(&vec![false, true]));
    let selected: Vec<bool> = app.gravity_wells().iter().map(|w| w.is_selected).collect();
    assert_eq!(selected, vec![true, true]);
}

#[test]
fn hits_beyond_the_wells_and_missing_hits_count_for_nothing() {
    let mut app = new_app();
    app.spawn_gravity_well(100.0, 100.0);
    app.spawn_gravity_well(200.0, 200.0);
    assert!(!app.try_selecting(&vec![false, false, true]));
    assert!(!app.try_selecting(&vec![]));
    assert!(!app.try_selecting(&vec![false]));
    assert!(app.gravity_wells().iter().all(|w| !w.is_selected));
    let mut empty = new_app();
    assert!(!empty.try_selecting(&vec![true]));
}

#[test]
fn the_selected_well_follows_the_pointer() {
    let mut app = new_app();
    app.spawn_gravity_well(100.0, 100.0);
    app.spawn_gravity_well(300.0, 300.0);
    let hits = hits_at(&app, 100, 100);
    assert!(app.try_selecting(&hits));
    app.move_selection_to(50.0, 50.0);
    assert_eq!(app.gravity_wells()[0].pos, [50.0, 50.0]);
    assert_eq!(app.gravity_wells()[1].pos, [300.0, 300.0]);
    assert!(app.gravity_wells()[0].is_selected);
}

#[test]
fn after_release_nothing_moves() {
    let mut app = new_app();
    app.spawn_gravity_well(100.0, 100.0);
    app.spawn_gravity_well(300.0, 300.0);
    let hits = hits_at(&app, 100, 100);
    assert!(app.try_selecting(&hits));
    app.move_selection_to(50.0, 50.0);
    app.release_selection();
    assert!(app.gravity_wells().iter().all(|w| !w.is_selected));
    app.move_selection_to(700.0, 700.0);
    assert_eq!(app.gravity_wells()[0].pos, [50.0, 50.0]);
    assert_eq!(app.gravity_wells()[1].pos, [300.0, 300.0]);
}

#[test]
fn move_selection_without_selection_moves_nothing() {
    let mut app = new_app();
    app.spawn_gravity_well(100.0, 100.0);
    app.move_selection_to(5.0, 5.0);
    assert_eq!(app.gravity_wells()[0].pos, [100.0, 100.0]);
}

#[test]
fn drag_selection_moves_the_selected_wells_to_their_targets() {
    let mut app = new_app();
    app.spawn_gravity_well(100.0, 100.0);
    app.spawn_gravity_well(200.0, 200.0);
    app.spawn_gravity_well(300.0, 300.0);
    assert!(app.try_selecting(&vec![false, true, false]));
    assert!(app.try_selecting(&vec![false, false, true]));
    let targets: Vec<[f64; 2]> =
        app.gravity_wells().iter().map(|w| [w.pos[0] + 5.0, w.pos[1] - 2.5]).collect();
    app.drag_selection(&targets);
    assert_eq!(app.gravity_wells()[0].pos, [100.0, 100.0]);
    assert_eq!(app.gravity_wells()[1].pos, [205.0, 197.5]);
    assert_eq!(app.gravity_wells()[2].pos, [305.0, 297.5]);
    app.drag_selection(&vec![[0.0, 0.0], [1.0, 1.0]]);
    assert_eq!(app.gravity_wells()[1].pos, [1.0, 1.0]);
    assert_eq!(app.gravity_wells()[2].pos, [305.0, 297.5]);
}

#[test]
fn try_removing_removes_the_first_well_that_is_hit() {
    let mut app = new_app();
    app.spawn_gravity_well(100.0, 100.0);
    app.spawn_gravity_well(105.0, 100.0);
    app.spawn_gravity_well(300.0, 300.0);
    let hits = hits_at(&app, 103, 101);
    app.try_removing(&hits);
    let left: Vec<[f64; 2]> = app.gravity_wells().iter().map(|w| w.pos).collect();
    assert_eq!(left, vec![[105.0, 100.0], [300.0, 300.0]]);
}

#[test]
fn try_removing_without_a_hit_removes_nothing() {
    let mut app = new_app();
    app.spawn_gravity_well(100.0, 100.0);
    let hits = hits_at(&app, 500, 500);
    app.try_removing(&hits);
    assert_eq!(app.gravity_wells().len(), 1);
    app.try_removing(&vec![]);
    assert_eq!(app.gravity_wells().len(), 1);
    let mut empty = new_app();
    empty.try_removing(&vec![true]);
    assert_eq!(empty.gravity_wells().len(), 0);
}

#[test]
fn update_turns_every_well_by_two_degrees() {
    let mut app = new_app();
    app.spawn_gravity_well(100.0, 100.0);
    app.update(&vec![]);
    assert_eq!(app.gravity_wells()[0].rotation_deg, 2);
    app.spawn_gravity_well(200.0, 200.0);
    app.update(&vec![]);
    assert_eq!(app.gravity_wells()[0].rotation_deg, 4);
    assert_eq!(app.gravity_wells()[1].rotation_deg, 2);
}

#[test]
fn the_rotation_wraps_at_a_full_turn() {
    let mut app = new_app();
    app.spawn_gravity_well(100.0, 100.0);
    for _ in 0..179 {
        app.update(&vec![]);
    }
    assert_eq!(app.gravity_wells()[0].rotation_deg, 358);
    app.update(&vec![]);
    assert_eq!(app.gravity_wells()[0].rotation_deg, 0);
    app.update(&vec![]);
    assert_eq!(app.gravity_wells()[0].rotation_deg, 2);
}

#[test]
fn a_well_turns_from_any_angle() {
    let mut well = GravityWell::new([0.0f64, 0.0], 1.0);
    well.rotation_deg = 359;
    well.rotate();
    assert_eq!(well.rotation_deg, 1);
    well.rotation_deg = u32::MAX;
    well.rotate();
    assert_eq!(well.rotation_deg, ((u32::MAX as u64 + 2) % 360) as u32);
    well.move_to(3.0, 4.0);
    assert_eq!(well.pos, [3.0, 4.0]);
}

#[test]
fn update_installs_the_motion_of_each_particle() {
    let mut app = new_app();
    app.spawn_colored_particle(1.0, 1.0, 0.0, 0.0, Color::from_u32(0x11223344), [0.0; 4]);
    app.spawn_colored_particle(2.0, 2.0, 0.0, 0.0, Color::from_u32(0x55667788), [0.0; 4]);
    app.spawn_colored_particle(3.0, 3.0, 0.0, 0.0, Color::from_u32(0x99aabbcc), [0.0; 4]);
    let moved = vec![
        Motion { pos: [1.5, 1.25], vel: [5.0, 2.5] },
        Motion { pos: [2.5, 2.25], vel: [-5.0, -2.5] },
    ];
    app.update(&moved);
    assert_eq!(app.get_particle_count(), 3);
    assert_eq!(
        app.particles()[0],
        Particle { pos: [1.5, 1.25], vel: [5.0, 2.5], color: Color::from_u32(0x11223344) }
    );
    assert_eq!(
        app.particles()[1],
        Particle { pos: [2.5, 2.25], vel: [-5.0, -2.5], color: Color::from_u32(0x55667788) }
    );
    assert_eq!(
        app.particles()[2],
        Particle { pos: [3.0, 3.0], vel: [0.0, 0.0], color: Color::from_u32(0x99aabbcc) }
    );
    assert_eq!(app.renderer().particle_color_array().len(), 24);
}

#[test]
fn turning_the_borders_on_purges_the_particles_outside() {
    let mut app = new_app();
    for i in 0..5 {
        let c = Color { r: i as u8, g: 0, b: 0, a: 255 };
        app.spawn_colored_particle(i as f64, 0.0, 0.0, 0.0, c, [i as f32; 4]);
    }
    app.set_borders_active(true, &vec![true, false, true, false, false]);
    assert!(app.borders_are_active());
    assert_eq!(positions(&app), vec![[3.0, 0.0], [1.0, 0.0], [4.0, 0.0]]);
    assert_eq!(
        app.renderer().particle_vertex_array(),
        &vec![3.0f32, 3.0, 3.0, 3.0, 1.0, 1.0, 1.0, 1.0, 4.0, 4.0, 4.0, 4.0]
    );
    assert_eq!(
        app.renderer().particle_color_array(),
        &vec![3u8, 0, 0, 255, 3, 0, 0, 0, 1, 0, 0, 255, 1, 0, 0, 0, 4, 0, 0, 255, 4, 0, 0, 0]
    );
}

#[test]
fn a_purge_of_the_last_particles_moves_nothing() {
    let mut app = new_app();
    for i in 0..4 {
        spawn(&mut app, i as f64, 0.0, 0.0, 0.0);
    }
    app.set_borders_active(true, &vec![false, false, true, true]);
    assert_eq!(positions(&app), vec![[0.0, 0.0], [1.0, 0.0]]);
    app.set_borders_active(true, &vec![true, true]);
    assert_eq!(app.get_particle_count(), 0);
    assert!(app.renderer().particle_vertex_array().is_empty());
}

#[test]
fn a_purge_ignores_flags_without_a_particle() {
    let mut app = new_app();
    for i in 0..3 {
        spawn(&mut app, i as f64, 0.0, 0.0, 0.0);
    }
    app.set_borders_active(true, &vec![false, true, false, true, true]);
    assert_eq!(positions(&app), vec![[0.0, 0.0], [2.0, 0.0]]);
    app.set_borders_active(true, &vec![true]);
    assert_eq!(positions(&app), vec![[2.0, 0.0]]);
    app.set_borders_active(true, &vec![]);
    assert_eq!(positions(&app), vec![[2.0, 0.0]]);
}

#[test]
fn turning_the_borders_off_purges_nothing() {
    let mut app = new_app();
    for i in 0..3 {
        spawn(&mut app, i as f64, 0.0, 0.0, 0.0);
    }
    app.set_borders_active(true, &vec![false, false, false]);
    assert!(app.borders_are_active());
    app.set_borders_active(false, &vec![true, true, true]);
    assert!(!app.borders_are_active());
    assert_eq!(app.get_particle_count(), 3);
}

#[test]
fn the_parameters_can_be_set_and_read() {
    let mut app = new_app();
    app.set_gravity_well_mass(12.5);
    assert_eq!(app.get_gravity_well_mass(), 12.5);
    app.set_particle_trail_scale(0.25);
    assert_eq!(app.get_particle_trail_scale(), 0.25);
    app.set_should_clear_screen(false);
    assert!(!app.should_clear_screen());
    app.set_should_clear_screen(true);
    assert!(app.should_clear_screen());
}
