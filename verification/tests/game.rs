use bomberman::bonus::BonusType;
use bomberman::game::{digits_of, score_text, Banner, BannerKind, Commands, Game, GameState};
use bomberman::geometry::{Rectangle, Sprite};
use bomberman::noise::{BLOCK, BOMB, EMPTY, WALL};
use bomberman::player::{Keys, Pickups, Player, State2, Tint, DIR};
use bomberman::setup::{COLS, ROWS};
use bomberman::upgrade::{Label, UpgradeType};

fn flat() -> Vec<Vec<i32>> {
    vec![vec![0; COLS]; ROWS]
}

fn idle() -> Commands {
    Commands { pause: false, menu: false, restart: false }
}

fn hands_off() -> Keys {
    Keys { up: false, down: false, left: false, right: false, plant: false }
}

fn running_game() -> Game {
    let mut game = Game::new(&flat());
    game.player.state = State2::ALIVE;
    game.player.delay = 0;
    game.state = GameState::RUNNING;
    game
}

#[test]
fn the_score_is_written_with_at_least_five_digits() {
    assert_eq!(score_text(0), b"00000".to_vec());
    assert_eq!(score_text(7), b"00007".to_vec());
    assert_eq!(score_text(42), b"00042".to_vec());
    assert_eq!(score_text(9999), b"09999".to_vec());
    assert_eq!(score_text(12345), b"12345".to_vec());
    assert_eq!(score_text(123456), b"123456".to_vec());
    assert_eq!(score_text(usize::MAX), usize::MAX.to_string().into_bytes());
    assert_eq!(digits_of(0), b"0".to_vec());
    assert_eq!(digits_of(907), b"907".to_vec());
    assert_eq!(digits_of(10), b"10".to_vec());
}

#[test]
fn banners_are_centred_on_the_screen() {
    let over = Banner::new(BannerKind::GameOver, 1536, 912);
    assert_eq!(over.rec, Rectangle { x: 0, y: 288, width: 144, height: 16 });
    assert_eq!(over.rec2, Rectangle { x: 55200, y: 43200, width: 43200, height: 4800 });
    let paused = Banner::new(BannerKind::Paused, 1536, 912);
    assert_eq!(paused.rec, Rectangle { x: 0, y: 304, width: 112, height: 16 });
    assert_eq!(paused.rec2, Rectangle { x: 60000, y: 43200, width: 33600, height: 4800 });
    let count = Banner::new(BannerKind::CountDown, 1536, 912);
    assert_eq!(count.rec, Rectangle { x: 0, y: 256, width: 48, height: 16 });
    assert_eq!(count.rec2, Rectangle { x: 69600, y: 43200, width: 14400, height: 4800 });
    assert_eq!((count.frames, count.time), (0, 0));
}

#[test]
fn the_countdown_banner_runs_through_five_frames() {
    let mut count = Banner::new(BannerKind::CountDown, 1536, 912);
    let shown = count.rec;
    let first = count.draw_animate(351);
    assert_eq!(first, Sprite { src: shown, dst: count.rec2 });
    assert_eq!((count.frames, count.time, count.rec.x, count.rec.y), (0, 351, 0, 256));
    let columns = [32, 64, 108, 180, 0, 32];
    let rows = [272, 256, 272, 256, 256, 272];
    for k in 0..6 {
        count.draw_animate(351);
        assert_eq!(count.frames, (k + 1) % 5);
        assert_eq!((count.rec.x, count.rec.y), (columns[k], rows[k]));
    }
    count.time = 350;
    let frames = count.frames;
    count.draw_animate(1);
    assert_eq!((count.frames, count.time), (frames, 351));
}

#[test]
fn the_other_banners_have_two_frames() {
    let mut over = Banner::new(BannerKind::GameOver, 100, 100);
    assert_eq!(over.rec2, Rectangle { x: -16600, y: 2600, width: 43200, height: 4800 });
    over.time = 221;
    over.draw_animate(1);
    assert_eq!((over.frames, over.time, over.rec.x, over.rec.y), (1, 1, 144, 288));
    over.time = 221;
    over.draw_animate(1);
    assert_eq!((over.frames, over.rec.x, over.rec.y), (0, 0, 288));
    let mut paused = Banner::new(BannerKind::Paused, 100, 100);
    paused.time = 221;
    paused.draw_animate(1);
    assert_eq!((paused.frames, paused.rec.x, paused.rec.y), (1, 112, 304));
}

#[test]
fn the_game_starts_on_the_standard_grid() {
    let game = Game::new(&flat());
    assert_eq!(game.state, GameState::STARTING);
    assert!(!game.menu_enable);
    assert_eq!((game.screen_w, game.screen_h), (1536, 912));
    assert_eq!(game.player, Player::new());
    assert_eq!(game.grid.cells.len(), ROWS);
    assert_eq!(game.grid.cells[0].len(), COLS);
    assert_eq!(game.grid.cells[0][0], BLOCK);
    assert_eq!(game.grid.cells[1][1], EMPTY);
    assert_eq!(game.grid.cells[2][2], BLOCK);
    let icons = [
        (&game.heart, BonusType::Heart, 30),
        (&game.cash, BonusType::Cash, 4),
        (&game.silver_coin, BonusType::SilverCoin, 6),
        (&game.gold_coin, BonusType::GoldCoin, 8),
        (&game.diamond, BonusType::Diamond, 10),
    ];
    for (icon, kind, column) in icons {
        assert_eq!(icon.bonus_type, kind);
        assert_eq!(
            icon.rec2,
            Rectangle { x: 4800 * column, y: 86400, width: 4800, height: 4800 }
        );
    }
    assert_eq!(game.game_over_text, Banner::new(BannerKind::GameOver, 1536, 912));
    assert_eq!(game.paused_text, Banner::new(BannerKind::Paused, 1536, 912));
    assert_eq!(game.count_down, Banner::new(BannerKind::CountDown, 1536, 912));
    assert_eq!((game.frames, game.time), (0, 0));
}

#[test]
fn the_game_state_follows_the_player() {
    let mut game = Game::new(&flat());
    game.state = GameState::RUNNING;
    game.update_game_state();
    assert_eq!(game.state, GameState::STARTING);
    game.player.state = State2::ALIVE;
    game.update_game_state();
    assert_eq!(game.state, GameState::RUNNING);
    game.player.state = State2::DYING;
    game.update_game_state();
    assert_eq!(game.state, GameState::RUNNING);
    game.player.state = State2::SPAWNING;
    game.update_game_state();
    assert_eq!(game.state, GameState::RUNNING);
    game.player.state = State2::DEAD;
    game.update_game_state();
    assert_eq!(game.state, GameState::GAMEOVER);
    game.state = GameState::PAUSED;
    game.player.state = State2::ALIVE;
    game.update_game_state();
    assert_eq!(game.state, GameState::PAUSED);
}

#[test]
fn the_player_spawns_once_the_countdown_has_run() {
    let mut game = Game::new(&flat());
    game.count_down.frames = 3;
    game.update_game_state();
    assert_eq!((game.state, game.player.state), (GameState::STARTING, State2::SPAWN));
    game.count_down.frames = 4;
    game.update_game_state();
    assert_eq!((game.state, game.player.state), (GameState::RUNNING, State2::SPAWNING));

    let mut game = Game::new(&flat());
    game.count_down.frames = 4;
    game.state = GameState::PAUSED;
    game.update_game_state();
    assert_eq!((game.state, game.player.state), (GameState::PAUSED, State2::SPAWN));

    let mut game = Game::new(&flat());
    game.count_down.frames = 4;
    game.state = GameState::STARTING;
    game.player.state = State2::DYING;
    game.update_game_state();
    assert_eq!((game.state, game.player.state), (GameState::RUNNING, State2::SPAWNING));
}

#[test]
fn commands_are_obeyed_one_at_a_time() {
    let samples = flat();
    let mut game = running_game();
    let all = Commands { pause: true, menu: true, restart: true };
    game.grid.cells[1][1] = WALL;
    game.handle_game_state(all, &samples);
    assert_eq!(game.state, GameState::PAUSED);
    assert!(!game.menu_enable);
    assert_eq!(game.grid.cells[1][1], WALL);
    game.handle_game_state(all, &samples);
    assert_eq!(game.state, GameState::STARTING);

    game.state = GameState::GAMEOVER;
    game.handle_game_state(all, &samples);
    assert_eq!(game.state, GameState::GAMEOVER);
    assert!(game.menu_enable);
    assert_eq!(game.grid.cells[1][1], WALL);
    game.handle_game_state(Commands { pause: false, menu: true, restart: true }, &samples);
    assert!(!game.menu_enable);

    game.player.score = 77;
    game.count_down.frames = 4;
    game.count_down.time = 9;
    game.handle_game_state(Commands { pause: true, menu: false, restart: true }, &samples);
    assert_eq!(game.grid.cells[1][1], EMPTY);
    assert_eq!(game.player, Player::new());
    assert_eq!((game.count_down.frames, game.count_down.time), (0, 9));
    assert_eq!(game.state, GameState::GAMEOVER);

    let before = game.player;
    game.handle_game_state(idle(), &samples);
    assert_eq!(game.player, before);
    assert_eq!(game.state, GameState::GAMEOVER);
}

#[test]
fn the_banner_of_the_state_is_drawn_and_moved_on() {
    let mut game = Game::new(&flat());
    let shown = game.count_down;
    let sprite = game.draw_game_state(351);
    assert_eq!(sprite, Some(Sprite { src: shown.rec, dst: shown.rec2 }));
    assert_eq!((game.count_down.frames, game.count_down.time), (0, 351));
    assert_eq!((game.frames, game.time), (0, 351));
    game.draw_game_state(10);
    assert_eq!(game.count_down.frames, 1);
    assert_eq!((game.frames, game.time), (1, 10));
    assert_eq!(game.count_down.rec.y, 272);
    assert_eq!(game.game_over_text, Banner::new(BannerKind::GameOver, 1536, 912));

    game.state = GameState::PAUSED;
    let count = game.count_down;
    let sprite = game.draw_game_state(10);
    assert_eq!(sprite, Some(Sprite { src: game.paused_text.rec, dst: game.paused_text.rec2 }));
    assert_eq!(game.paused_text.time, 10);
    assert_eq!(game.count_down, count);

    game.state = GameState::GAMEOVER;
    let sprite = game.draw_game_state(10);
    assert_eq!(
        sprite,
        Some(Sprite { src: game.game_over_text.rec, dst: game.game_over_text.rec2 })
    );
    assert_eq!(game.game_over_text.time, 10);

    game.state = GameState::RUNNING;
    let over = game.game_over_text;
    assert_eq!(game.draw_game_state(10), None);
    assert_eq!(game.game_over_text, over);
}

#[test]
fn the_sheet_row_of_the_countdown_alternates() {
    let mut game = Game::new(&flat());
    game.anim_count_down(221);
    assert_eq!((game.frames, game.time, game.count_down.rec.y), (0, 221, 256));
    game.anim_count_down(221);
    assert_eq!((game.frames, game.time, game.count_down.rec.y), (1, 221, 272));
    game.anim_count_down(1);
    assert_eq!((game.frames, game.time, game.count_down.rec.y), (0, 1, 256));
}

#[test]
fn the_lines_of_text_stand_where_they_belong() {
    let mut game = Game::new(&flat());
    game.player.score = 250;
    game.player.cash = 4;
    game.player.diamond = 9;
    let (digits, label) = game.draw_score();
    assert_eq!(digits, b"00250".to_vec());
    assert_eq!(label, Label { count: 250, x: 0, y: 862, size: 60 });
    assert_eq!(
        game.draw_text(),
        vec![
            Label { count: 3, x: 1464, y: 888, size: 30 },
            Label { count: 4, x: 216, y: 888, size: 30 },
            Label { count: 0, x: 312, y: 888, size: 30 },
            Label { count: 0, x: 408, y: 888, size: 30 },
            Label { count: 9, x: 504, y: 888, size: 30 },
        ]
    );
    assert_eq!(game.draw_blur(), Rectangle { x: 0, y: 0, width: 1536, height: 864 });
    let icons = game.draw_icons();
    assert_eq!(icons.len(), 5);
    assert_eq!(icons[0], Some(Sprite { src: game.heart.rec, dst: game.heart.rec2 }));
    assert_eq!(icons[4], Some(Sprite { src: game.diamond.rec, dst: game.diamond.rec2 }));
}

#[test]
fn the_icons_move_on_together() {
    let mut game = Game::new(&flat());
    game.update_icons(221);
    game.update_icons(1);
    assert_eq!((game.heart.frame, game.heart.rec.x), (1, 64));
    assert_eq!((game.cash.frame, game.cash.rec.x), (1, 48));
    assert_eq!((game.silver_coin.frame, game.silver_coin.rec.x), (1, 16));
    assert_eq!((game.gold_coin.frame, game.gold_coin.rec.x), (1, 16));
    assert_eq!((game.diamond.frame, game.diamond.rec.x), (1, 16));
}

#[test]
fn nothing_moves_while_the_game_is_starting() {
    let mut game = Game::new(&flat());
    let player = game.player;
    let cells = game.grid.cells.clone();
    let sounds = game.update(idle(), hands_off(), &flat(), 16);
    assert_eq!(sounds.rings, Pickups { bonus: 0, upgrade: 0 });
    assert!(sounds.blasts.is_empty());
    assert_eq!(game.state, GameState::STARTING);
    assert_eq!(game.player, player);
    assert_eq!(game.grid.cells, cells);
    assert_eq!(game.heart.time, 0);
}

#[test]
fn the_game_runs_once_the_countdown_was_drawn_to_its_end() {
    let samples = flat();
    let mut game = Game::new(&samples);
    for _ in 0..5 {
        let frame = game.draw(351);
        assert!(frame.banner.is_some());
        assert!(frame.player.is_empty());
    }
    assert_eq!(game.count_down.frames, 4);
    game.update(idle(), hands_off(), &samples, 331);
    assert_eq!((game.state, game.player.state), (GameState::RUNNING, State2::SPAWNING));
    assert_eq!((game.player.frames, game.player.time), (0, 331));
    assert_eq!(game.heart.time, 331);
    for k in 1..4 {
        game.update(idle(), hands_off(), &samples, 331);
        assert_eq!((game.player.state, game.player.frames), (State2::SPAWNING, k));
    }
    game.update(idle(), hands_off(), &samples, 331);
    assert_eq!(game.player.state, State2::ALIVE);
    assert_eq!((game.player.dir, game.player.frames, game.player.delay), (DIR::Down, 3, 0));
    assert_eq!(game.player.rec_down.x, 112);
    assert_eq!(game.state, GameState::RUNNING);
    let frame = game.draw(16);
    assert_eq!(frame.banner, None);
    assert_eq!(frame.player.len(), 2);
    assert_eq!(frame.tint, Tint::White);
}

#[test]
fn a_running_game_lets_the_player_plant_and_the_bomb_go_off() {
    let samples = flat();
    let mut game = running_game();
    let plant = Keys { up: false, down: false, left: false, right: false, plant: true };
    let sounds = game.update(idle(), plant, &samples, 16);
    assert!(sounds.blasts.is_empty());
    assert_eq!(game.grid.cells[1][1], BOMB);
    assert_eq!(game.player.bomb_reload_time, 16);
    let right = Keys { up: false, down: false, left: false, right: true, plant: false };
    let mut ticks = 0;
    while game.player.rec2.x < 4800 * 3 {
        game.update(idle(), right, &samples, 100);
        ticks += 1;
        assert!(ticks < 50);
    }
    assert_eq!(game.player.lifes, 3);
    let down = Keys { up: false, down: true, left: false, right: false, plant: false };
    while game.player.rec2.y < 4800 * 3 {
        game.update(idle(), down, &samples, 100);
        ticks += 1;
        assert!(ticks < 100);
    }
    let mut heard = 0;
    while game.grid.cells[1][1] != EMPTY {
        let sounds = game.update(idle(), hands_off(), &samples, 100);
        heard += sounds.blasts.len();
        ticks += 1;
        assert!(ticks < 200);
    }
    assert!(heard > 0);
    assert_eq!(game.player.lifes, 3);
    assert_eq!(game.player.state, State2::ALIVE);
    assert_eq!(game.grid.cells[1][2], EMPTY);
    assert_eq!(game.grid.cells[2][1], EMPTY);
}

#[test]
fn a_paused_game_stands_still_and_goes_on_when_resumed() {
    let samples = flat();
    let mut game = running_game();
    let pause = Commands { pause: true, menu: false, restart: false };
    let right = Keys { up: false, down: false, left: false, right: true, plant: false };
    game.update(pause, right, &samples, 100);
    assert_eq!(game.state, GameState::PAUSED);
    assert_eq!(game.player.rec2.x, 4800);
    game.update(idle(), right, &samples, 100);
    assert_eq!(game.state, GameState::PAUSED);
    assert_eq!(game.player.rec2.x, 4800);
    game.update(pause, right, &samples, 100);
    assert_eq!(game.state, GameState::RUNNING);
    assert_eq!(game.player.rec2.x, 5700);
}

#[test]
fn a_restart_builds_grid_and_player_anew() {
    let samples = flat();
    let mut game = running_game();
    game.player.score = 5;
    game.player.black_bombs = 2;
    game.player.weapon = UpgradeType::BlackBomb;
    game.grid.cells[1][1] = BOMB;
    game.count_down.frames = 4;
    let restart = Commands { pause: false, menu: false, restart: true };
    let sounds = game.update(restart, hands_off(), &samples, 16);
    assert!(sounds.blasts.is_empty());
    assert_eq!(game.state, GameState::STARTING);
    assert_eq!(game.player, Player::new());
    assert_eq!(game.grid.cells[1][1], EMPTY);
    assert_eq!(game.count_down.frames, 0);
}

#[test]
fn the_game_is_over_when_the_player_is_dead() {
    let samples = flat();
    let mut game = running_game();
    game.player.state = State2::DEAD;
    game.player.lifes = 0;
    game.update(idle(), hands_off(), &samples, 16);
    assert_eq!(game.state, GameState::GAMEOVER);
    let pause = Commands { pause: true, menu: false, restart: false };
    game.update(pause, hands_off(), &samples, 16);
    assert_eq!(game.state, GameState::GAMEOVER);
    let frame = game.draw(16);
    assert_eq!(
        frame.banner,
        Some(Sprite {
            src: Rectangle { x: 0, y: 288, width: 144, height: 16 },
            dst: game.game_over_text.rec2
        })
    );
}
