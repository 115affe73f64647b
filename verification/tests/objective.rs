use snake_game::objective::{
    check_objective_collision, consume_objectives, spawn_objective, Objective,
};
use snake_game::positioning::Position;

#[test]
fn spawn_objective_registers_in_order() {
    let mut objectives = Vec::new();
    spawn_objective(&mut objectives, Position { x: 1, y: 1 });
    spawn_objective(&mut objectives, Position { x: 2, y: 2 });
    spawn_objective(&mut objectives, Position { x: 1, y: 1 });
    assert_eq!(
        objectives,
        vec![
            Objective { position: Position { x: 1, y: 1 } },
            Objective { position: Position { x: 2, y: 2 } },
            Objective { position: Position { x: 1, y: 1 } },
        ]
    );
}

#[test]
fn collision_removes_the_objective_under_the_head() {
    let mut objectives = vec![
        Objective { position: Position { x: 1, y: 1 } },
        Objective { position: Position { x: 3, y: 4 } },
        Objective { position: Position { x: 5, y: 5 } },
    ];
    let consumed = check_objective_collision(Position { x: 3, y: 4 }, &mut objectives);
    assert_eq!(consumed, Some(1));
    assert_eq!(
        objectives,
        vec![
            Objective { position: Position { x: 1, y: 1 } },
            Objective { position: Position { x: 5, y: 5 } },
        ]
    );
}

#[test]
fn collision_takes_the_first_of_several() {
    let mut objectives = vec![
        Objective { position: Position { x: 0, y: 0 } },
        Objective { position: Position { x: 3, y: 4 } },
        Objective { position: Position { x: 3, y: 4 } },
    ];
    assert_eq!(check_objective_collision(Position { x: 3, y: 4 }, &mut objectives), Some(1));
    assert_eq!(objectives.len(), 2);
    assert_eq!(check_objective_collision(Position { x: 3, y: 4 }, &mut objectives), Some(1));
    assert_eq!(objectives, vec![Objective { position: Position { x: 0, y: 0 } }]);
    assert_eq!(check_objective_collision(Position { x: 3, y: 4 }, &mut objectives), None);
    assert_eq!(objectives, vec![Objective { position: Position { x: 0, y: 0 } }]);
}

#[test]
fn no_collision_leaves_registry_alone() {
    let mut objectives = vec![
        Objective { position: Position { x: 1, y: 1 } },
        Objective { position: Position { x: 2, y: 2 } },
    ];
    assert_eq!(check_objective_collision(Position { x: 1, y: 2 }, &mut objectives), None);
    assert_eq!(
        objectives,
        vec![
            Objective { position: Position { x: 1, y: 1 } },
            Objective { position: Position { x: 2, y: 2 } },
        ]
    );
    let mut none: Vec<Objective> = Vec::new();
    assert_eq!(check_objective_collision(Position { x: 0, y: 0 }, &mut none), None);
    assert!(none.is_empty());
}

#[test]
fn consume_counts_every_coincident_objective() {
    let mut objectives = vec![
        Objective { position: Position { x: 3, y: 4 } },
        Objective { position: Position { x: 1, y: 1 } },
        Objective { position: Position { x: 3, y: 4 } },
        Objective { position: Position { x: 2, y: 2 } },
        Objective { position: Position { x: 3, y: 4 } },
    ];
    let signals = consume_objectives(Position { x: 3, y: 4 }, &mut objectives);
    assert_eq!(signals, 3);
    assert_eq!(
        objectives,
        vec![
            Objective { position: Position { x: 1, y: 1 } },
            Objective { position: Position { x: 2, y: 2 } },
        ]
    );
}

#[test]
fn consume_with_nothing_under_the_head() {
    let mut objectives = vec![
        Objective { position: Position { x: 1, y: 1 } },
        Objective { position: Position { x: 2, y: 2 } },
    ];
    assert_eq!(consume_objectives(Position { x: 4, y: 3 }, &mut objectives), 0);
    assert_eq!(objectives.len(), 2);
    let mut none: Vec<Objective> = Vec::new();
    assert_eq!(consume_objectives(Position { x: 4, y: 3 }, &mut none), 0);
}

#[test]
fn consume_splits_registry_in_two() {
    let mut objectives = Vec::new();
    for i in 0..20 {
        spawn_objective(&mut objectives, Position { x: i % 3, y: 0 });
    }
    let before = objectives.len();
    let signals = consume_objectives(Position { x: 0, y: 0 }, &mut objectives);
    assert_eq!(signals, 7);
    assert_eq!(signals + objectives.len(), before);
    assert!(objectives.iter().all(|o| o.position != Position { x: 0, y: 0 }));
}
