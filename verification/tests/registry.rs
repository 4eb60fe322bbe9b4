use sphere_uniforms::names::{center_name, count_name, radius_name, resolution_name};
use sphere_uniforms::registry::{SphereRegistry, SyncError};
use sphere_uniforms::sphere::{Sphere, Vec3Bits};
use sphere_uniforms::uniforms::{UniformValue, Upload};
use sphere_uniforms::MAX_SPHERES;

/// A counting mock backend, standing in for the shader: resolves each
/// distinct uniform name to a fresh stable slot and records every upload
/// performed against it.
struct MockBackend {
    names: Vec<String>,
    uploads: Vec<Upload>,
}

impl MockBackend {
    fn new() -> Self {
        MockBackend { names: Vec::new(), uploads: Vec::new() }
    }

    fn resolve_slot(&mut self, name: &str) -> i32 {
        for (k, n) in self.names.iter().enumerate() {
            if n == name {
                return k as i32;
            }
        }
        self.names.push(name.to_string());
        (self.names.len() - 1) as i32
    }

    fn perform(&mut self, u: Upload) {
        self.uploads.push(u);
    }

    fn perform_all(&mut self, plan: Vec<Upload>) {
        for u in plan {
            self.uploads.push(u);
        }
    }
}

fn vec3(c: [f32; 3]) -> Vec3Bits {
    Vec3Bits { x: c[0].to_bits(), y: c[1].to_bits(), z: c[2].to_bits() }
}

/// What the host does per registration: resolve the two names for the next
/// index, then hand the sphere and the resolved slots to the registry and
/// perform the count upload it plans.
fn host_add(reg: &mut SphereRegistry, be: &mut MockBackend, center: [f32; 3], radius: f32) {
    let i = reg.next_index();
    let c = be.resolve_slot(center_name(i).as_str());
    let r = be.resolve_slot(radius_name(i).as_str());
    let count_upload = reg.add(Sphere::new(vec3(center), radius.to_bits()), c, r);
    be.perform(count_upload);
}

fn new_registry(be: &mut MockBackend) -> SphereRegistry {
    let count_slot = be.resolve_slot(count_name());
    SphereRegistry::new(count_slot)
}

#[test]
fn empty_registry_sync_uploads_only_the_count_zero() {
    let mut be = MockBackend::new();
    let reg = new_registry(&mut be);
    let count_slot = be.resolve_slot(count_name());
    let before = be.uploads.len();
    let plan = reg.push_all().unwrap();
    be.perform_all(plan);
    // success, and the pass uploads only the live count, zero: no entries
    // were ever registered
    assert_eq!(be.uploads.len(), before + 1);
    assert_eq!(
        be.uploads[before],
        Upload { slot: count_slot, value: UniformValue::Int { value: 0 } }
    );
    assert_eq!(reg.len(), 0);
}

#[test]
fn two_spheres_upload_in_insertion_order() {
    let mut be = MockBackend::new();
    let mut reg = new_registry(&mut be);
    let count_slot = be.resolve_slot(count_name());
    host_add(&mut reg, &mut be, [0.0, 0.0, -1.0], 0.5);
    host_add(&mut reg, &mut be, [0.0, -100.5, -1.0], 100.0);

    // registration uploaded the live count after each add
    assert_eq!(
        be.uploads,
        vec![
            Upload { slot: count_slot, value: UniformValue::Int { value: 1 } },
            Upload { slot: count_slot, value: UniformValue::Int { value: 2 } },
        ]
    );

    let a_center = be.resolve_slot("spheres[0].center");
    let a_radius = be.resolve_slot("spheres[0].radius");
    let b_center = be.resolve_slot("spheres[1].center");
    let b_radius = be.resolve_slot("spheres[1].radius");

    let plan = reg.push_all().unwrap();
    assert_eq!(
        plan,
        vec![
            Upload { slot: count_slot, value: UniformValue::Int { value: 2 } },
            Upload {
                slot: a_center,
                value: UniformValue::Vec3 {
                    x: 0.0f32.to_bits(),
                    y: 0.0f32.to_bits(),
                    z: (-1.0f32).to_bits(),
                },
            },
            Upload { slot: a_radius, value: UniformValue::Scalar { bits: 0.5f32.to_bits() } },
            Upload {
                slot: b_center,
                value: UniformValue::Vec3 {
                    x: 0.0f32.to_bits(),
                    y: (-100.5f32).to_bits(),
                    z: (-1.0f32).to_bits(),
                },
            },
            Upload { slot: b_radius, value: UniformValue::Scalar { bits: 100.0f32.to_bits() } },
        ]
    );
}

#[test]
fn sync_at_exactly_the_capacity_bound_succeeds() {
    let mut be = MockBackend::new();
    let mut reg = new_registry(&mut be);
    for i in 0..MAX_SPHERES {
        host_add(&mut reg, &mut be, [i as f32, 0.0, -1.0], 0.25);
    }
    let count_slot = be.resolve_slot(count_name());
    let plan = reg.push_all().unwrap();
    // the live count first, then two uploads per entry
    assert_eq!(plan.len(), 1 + 2 * MAX_SPHERES);
    assert_eq!(
        plan[0],
        Upload { slot: count_slot, value: UniformValue::Int { value: MAX_SPHERES as i32 } }
    );
}

#[test]
fn over_capacity_sync_fails_with_zero_uploads() {
    let mut be = MockBackend::new();
    let mut reg = new_registry(&mut be);
    for i in 0..(MAX_SPHERES + 1) {
        host_add(&mut reg, &mut be, [i as f32, 1.0, -2.0], 0.125);
    }
    // 21 distinct spheres were registered (over-capacity registration
    // succeeds by design); only synchronization fails
    assert_eq!(reg.len(), MAX_SPHERES + 1);
    let before = be.uploads.len();
    let r = reg.push_all();
    assert!(matches!(r, Err(SyncError::CapacityExceeded)));
    // all-or-nothing: the failing pass performed no upload at all, aside
    // from the per-add count uploads already performed during registration
    assert_eq!(be.uploads.len(), before);
}

#[test]
fn repeated_sync_plans_identical_uploads() {
    let mut be = MockBackend::new();
    let mut reg = new_registry(&mut be);
    host_add(&mut reg, &mut be, [1.0, 2.0, 3.0], 4.0);
    host_add(&mut reg, &mut be, [-1.0, 0.5, 0.0], 0.75);
    let first = reg.push_all().unwrap();
    let second = reg.push_all().unwrap();
    assert_eq!(first, second);
}

#[test]
fn slots_of_an_entry_are_stable_across_later_adds() {
    let mut be = MockBackend::new();
    let mut reg = new_registry(&mut be);
    host_add(&mut reg, &mut be, [0.0, 0.0, -1.0], 0.5);
    let early = reg.push_all().unwrap();
    for i in 1..8 {
        host_add(&mut reg, &mut be, [i as f32, 0.0, -1.0], 0.5);
    }
    let late = reg.push_all().unwrap();
    // entry 0 still contributes the same two uploads, at the same slots,
    // at the same positions of the plan (after the leading count upload)
    assert_eq!(late[1], early[1]);
    assert_eq!(late[2], early[2]);
    // only the leading live count differs between the two passes
    assert_ne!(late[0], early[0]);
}

#[test]
fn resolution_uniform_is_never_touched_by_registry_operations() {
    let mut be = MockBackend::new();
    let res_slot = be.resolve_slot(resolution_name());
    // the host writes the viewport size exactly once, at startup
    be.perform(Upload {
        slot: res_slot,
        value: UniformValue::Vec2 { x: 800.0f32.to_bits(), y: 800.0f32.to_bits() },
    });
    let mut reg = new_registry(&mut be);
    host_add(&mut reg, &mut be, [0.0, 0.0, -1.0], 0.5);
    host_add(&mut reg, &mut be, [0.0, -100.5, -1.0], 100.0);
    let plan = reg.push_all().unwrap();
    be.perform_all(plan);
    let plan = reg.push_all().unwrap();
    be.perform_all(plan);
    let writes_to_resolution =
        be.uploads.iter().filter(|u| u.slot == res_slot).count();
    assert_eq!(writes_to_resolution, 1);
    assert_eq!(
        be.uploads[0],
        Upload {
            slot: res_slot,
            value: UniformValue::Vec2 { x: 800.0f32.to_bits(), y: 800.0f32.to_bits() },
        }
    );
}

#[test]
fn sphere_starts_unresolved_and_binds_at_registration() {
    let s = Sphere::new(vec3([0.0, 0.0, -1.0]), 0.5f32.to_bits());
    assert_eq!(s.center_slot, sphere_uniforms::UNRESOLVED_SLOT);
    assert_eq!(s.radius_slot, sphere_uniforms::UNRESOLVED_SLOT);
    let mut be = MockBackend::new();
    let mut reg = new_registry(&mut be);
    host_add(&mut reg, &mut be, [0.0, 0.0, -1.0], 0.5);
    let plan = reg.push_all().unwrap();
    // the planned slots are the ones resolved at registration, not sentinels
    assert!(plan.iter().all(|u| u.slot != sphere_uniforms::UNRESOLVED_SLOT));
}
