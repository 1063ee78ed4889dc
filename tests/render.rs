use pathtracer::render::{path_step, pixel_seed, pixel_tasks, PathStep, MAX_DEPTH, SEED_SALT};

#[test]
fn miss_escapes_at_any_depth() {
    assert_eq!(path_step(false, 0), PathStep::Escape);
    assert_eq!(path_step(false, MAX_DEPTH + 1), PathStep::Escape);
    assert_eq!(path_step(false, usize::MAX), PathStep::Escape);
}

#[test]
fn hit_bounces_up_to_the_cutoff() {
    assert_eq!(path_step(true, 0), PathStep::Bounce);
    assert_eq!(path_step(true, 5), PathStep::Bounce);
}

#[test]
fn hit_past_the_cutoff_emits_only() {
    assert_eq!(path_step(true, 6), PathStep::EmitOnly);
    assert_eq!(path_step(true, usize::MAX), PathStep::EmitOnly);
}

#[test]
fn tasks_of_three_by_two() {
    let t = pixel_tasks(3, 2);
    assert_eq!(t, vec![(0, 0), (0, 1), (1, 0), (1, 1), (2, 0), (2, 1)]);
}

#[test]
fn tasks_cover_each_pixel_once() {
    let (w, h) = (4usize, 4usize);
    let t = pixel_tasks(w, h);
    assert_eq!(t.len(), w * h);
    for x in 0..w {
        for y in 0..h {
            assert_eq!(t.iter().filter(|&&p| p == (x, y)).count(), 1);
        }
    }
}

#[test]
fn tasks_of_empty_image() {
    assert!(pixel_tasks(0, 5).is_empty());
    assert!(pixel_tasks(5, 0).is_empty());
}

#[test]
fn seeds_are_deterministic_and_distinct() {
    assert_eq!(pixel_seed(42, 1, 2), [42, 1, 2, SEED_SALT]);
    assert_eq!(pixel_seed(42, 1, 2), pixel_seed(42, 1, 2));
    assert_ne!(pixel_seed(42, 1, 2), pixel_seed(42, 2, 1));
    assert_ne!(pixel_seed(0, 0, 0), [0, 0, 0, 0]);
}
