use gamestate::loot::Loot;
use gamestate::loot::LootType;
use gamestate::loot::spawn_random_loot;

#[test]
fn spawned_loot_stays_in_bounds_over_many_draws() {
    for _ in 0..10_000 {
        let loot = spawn_random_loot(9, 10, 10);
        assert_eq!(loot.id, 9);
        assert!(loot.position.x < 10);
        assert!(loot.position.y < 10);
        match loot.loot_type {
            LootType::Health(magnitude) => {
                assert!((25..75).contains(&magnitude));
            }
        }
    }
}

#[test]
fn spawned_loot_carries_the_callers_id() {
    for id in [0, 1, 7, u64::MAX] {
        let loot = spawn_random_loot(id, 3, 4);
        assert_eq!(loot.id, id);
        assert!(loot.position.x < 3);
        assert!(loot.position.y < 4);
    }
}

#[test]
fn one_by_one_map_always_spawns_at_origin() {
    let loot = spawn_random_loot(5, 1, 1);
    assert_eq!(loot.position.x, 0);
    assert_eq!(loot.position.y, 0);
}

#[test]
fn loot_equality_is_structural() {
    let a = Loot {
        id: 1,
        loot_type: LootType::Health(30),
        position: gamestate::player::Position::new(2, 3),
    };
    let b = Loot {
        id: 1,
        loot_type: LootType::Health(30),
        position: gamestate::player::Position::new(2, 3),
    };
    assert_eq!(a, b);
}
