use bomberman::bonus::{Bonus, BonusType};
use bomberman::geometry::{Rectangle, Sprite, SCALE};
use bomberman::grid::{GameObjs, Grid};
use bomberman::noise::EMPTY;
use bomberman::upgrade::{Label, Upgrade, UpgradeType};

#[test]
fn each_bonus_has_its_worth_and_its_frames() {
    let cases = [
        (BonusType::Heart, 1, 48, 192, vec![48, 64, 80, 96]),
        (
            BonusType::Cash,
            10,
            32,
            240,
            vec![32, 48, 64, 80, 96, 112, 128, 144, 160, 176, 192, 208],
        ),
        (BonusType::SilverCoin, 20, 0, 224, vec![0, 16, 32, 48]),
        (BonusType::GoldCoin, 50, 0, 208, vec![0, 16, 32, 48]),
        (BonusType::Diamond, 100, 0, 240, vec![0, 16]),
    ];
    for (kind, val, x, y, frames) in cases {
        let bonus = Bonus::new(kind, 2, 3, SCALE);
        assert_eq!(bonus.bonus_type, kind);
        assert_eq!(bonus.val, val);
        assert_eq!(bonus.rec, Rectangle { x, y, width: 16, height: 16 });
        assert_eq!(bonus.rec2, Rectangle { x: 9600, y: 14400, width: 4800, height: 4800 });
        assert_eq!(bonus.local_frames, frames);
        assert_eq!((bonus.frame, bonus.time), (0, 0));
        assert_eq!(bonus.get_position(), (2, 3));
    }
}

#[test]
fn a_bonus_of_no_kind_is_empty() {
    let bonus = Bonus::new(BonusType::Default, 0, 0, SCALE);
    assert_eq!(bonus.val, 0);
    assert_eq!(bonus.rec, Rectangle { x: 0, y: 0, width: 0, height: 0 });
    assert!(bonus.local_frames.is_empty());
    assert_eq!(bonus.draw(), None);
}

#[test]
fn bonus_runs_through_its_frames_and_starts_again() {
    let mut diamond = Bonus::new(BonusType::Diamond, 1, 1, SCALE);
    diamond.animate(221);
    assert_eq!((diamond.frame, diamond.time, diamond.rec.x), (0, 221, 0));
    diamond.animate(221);
    assert_eq!((diamond.frame, diamond.time, diamond.rec.x), (1, 221, 16));
    diamond.animate(100);
    assert_eq!((diamond.frame, diamond.time, diamond.rec.x), (0, 100, 0));
    diamond.animate(120);
    assert_eq!((diamond.frame, diamond.time, diamond.rec.x), (0, 220, 0));
    diamond.animate(1);
    assert_eq!((diamond.frame, diamond.time, diamond.rec.x), (0, 221, 0));
    let mut cash = Bonus::new(BonusType::Cash, 1, 1, SCALE);
    cash.frame = 11;
    cash.time = 500;
    cash.animate(1);
    assert_eq!((cash.frame, cash.time, cash.rec.x), (0, 1, 32));
}

#[test]
fn a_bonus_is_drawn_until_it_is_taken() {
    let mut grid = Grid {
        empty_vec: vec![],
        grass_vec: vec![],
        bonus_vec: vec![
            Bonus::new(BonusType::Heart, 1, 1, SCALE),
            Bonus::new(BonusType::Cash, 2, 1, SCALE),
        ],
        upgrade_vec: vec![
            Upgrade::new(UpgradeType::BlueBomb, 2, 1, 1, SCALE),
            Upgrade::new(UpgradeType::RedBomb, 3, 2, 2, SCALE),
        ],
        cells: vec![vec![EMPTY; 3]; 3],
        game_objs: vec![vec![GameObjs::Default; 3]; 3],
    };
    let heart = &grid.bonus_vec[0];
    assert_eq!(heart.draw(), Some(Sprite { src: heart.rec, dst: heart.rec2 }));
    grid.rm_bonus_obj(0);
    assert_eq!(grid.bonus_vec[0].bonus_type, BonusType::Default);
    assert_eq!(grid.bonus_vec[0].val, 1);
    assert_eq!(grid.bonus_vec[0].draw(), None);
    assert_eq!(grid.bonus_vec[1].bonus_type, BonusType::Cash);
    grid.rm_upgrade_obj(1);
    assert_eq!(grid.upgrade_vec[0].up_type, UpgradeType::BlueBomb);
    assert_eq!(grid.upgrade_vec[1].up_type, UpgradeType::Default);
    assert_eq!(grid.upgrade_vec[1].val, 3);
    assert_eq!(grid.upgrade_vec[1].draw(), None);
    assert_eq!(grid.upgrade_vec[1].draw_val(), None);
}

#[test]
fn each_upgrade_shows_its_bomb_and_its_count() {
    let cases = [
        (UpgradeType::BlackBomb, 64),
        (UpgradeType::BlueBomb, 112),
        (UpgradeType::PurpleBomb, 160),
        (UpgradeType::RedBomb, 204),
    ];
    for (kind, x) in cases {
        let upgrade = Upgrade::new(kind, 3, 2, 5, SCALE);
        assert_eq!(upgrade.rec2, Rectangle { x: 9600, y: 24000, width: 4800, height: 4800 });
        assert_eq!(upgrade.get_position(), (2, 5));
        assert_eq!(
            upgrade.draw(),
            Some(Sprite {
                src: Rectangle { x, y: 96, width: 16, height: 16 },
                dst: upgrade.rec2
            })
        );
        assert_eq!(upgrade.draw_val(), Some(Label { count: 3, x: 116, y: 260, size: 20 }));
    }
}
