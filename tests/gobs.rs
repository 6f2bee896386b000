use whack::colours::Colour;
use whack::gobs::{Board, Sprite, Vec2D};

fn full_board(length: u32) -> Board {
    let mut board = Board::from_length(length);
    for _ in 0..9 {
        board.add_tile();
    }
    board
}

fn overlaps_with(board: &Board, cursor: &Sprite) -> Vec<bool> {
    board.tiles.iter().map(|x| cursor.is_overlapping(&x.unwrap())).collect()
}

#[test]
fn gobs_add_tile() {
    let mut board = Board::from_length(300);
    board.add_tile();
    let is_some_array: Vec<bool> = board.tiles.iter().map(|x| x.is_some()).collect();
    assert!(is_some_array.contains(&true));
}

#[test]
fn gobs_free_positions() {
    let mut board = Board::from_length(300);
    board.add_tile();
    assert_eq!(board.free_positions().len(), 8);
}

#[test]
fn gobs_clear_board() {
    let mut board = Board::from_length(300);
    for _ in 0..8 {
        board.add_tile();
    }
    assert!(!board.is_full());
    board.add_tile();
    assert!(board.is_full());
    board.clear_board();
    assert!(!board.is_full());
}

#[test]
fn gobs_is_overlapping() {
    let window_size: u32 = 300;
    let board = full_board(window_size);
    let mut cursor = Sprite::new(
        (window_size / 2) as i64,
        (window_size / 2) as i64,
        window_size / 16,
        window_size / 16,
        Colour::Yellow,
    );
    assert_eq!(
        overlaps_with(&board, &cursor),
        [false, false, false, false, true, false, false, false, false]
    );
    cursor.pos.x -= 100;
    assert_eq!(
        overlaps_with(&board, &cursor),
        [false, false, false, true, false, false, false, false, false]
    );
    cursor.pos.y -= 100;
    assert_eq!(
        overlaps_with(&board, &cursor),
        [true, false, false, false, false, false, false, false, false]
    );
}

#[test]
fn gobs_move_cursor() {
    let window_size: u32 = 300;
    let mut cursor = Sprite::new(
        (window_size / 2) as i64,
        (window_size / 2) as i64,
        window_size / 16,
        window_size / 16,
        Colour::Yellow,
    );
    cursor.pos.add(Vec2D { x: -100, y: 0 });
    assert_eq!(cursor.pos.x, 50);
    assert_eq!(cursor.pos.y, 150);
    cursor.pos.add(Vec2D { x: 100, y: 100 });
    assert_eq!(cursor.pos.x, 150);
    assert_eq!(cursor.pos.y, 250);
}

#[test]
fn gobs_gen_random_index() {
    let board = Board::from_length(300);
    for _ in 1..10 {
        if let Some(i) = board.random_position() {
            assert!(i <= 8);
        }
    }
}

#[test]
fn gobs_check_x_from_i() {
    let board = Board::from_length(300);
    assert_eq!(board.x_from_index(0), 0);
    assert_eq!(board.x_from_index(1), 100);
    assert_eq!(board.x_from_index(2), 200);
    assert_eq!(board.x_from_index(8), 200);
}

#[test]
fn gobs_check_y_from_i() {
    let board = Board::from_length(300);
    assert_eq!(board.y_from_index(0), 0);
    assert_eq!(board.y_from_index(1), 0);
    assert_eq!(board.y_from_index(2), 0);
    assert_eq!(board.y_from_index(8), 200);
}

#[test]
fn overlap_counts_touching_edges() {
    let a = Sprite::new(0, 0, 10, 10, Colour::Red);
    let b = Sprite::new(9, 0, 10, 10, Colour::Red);
    let c = Sprite::new(11, 0, 10, 10, Colour::Red);
    let d = Sprite::new(10, 0, 10, 10, Colour::Red);
    assert!(a.is_overlapping(&b));
    assert!(!a.is_overlapping(&c));
    assert!(a.is_overlapping(&d));
    assert!(!c.is_overlapping(&a));
    let below = Sprite::new(0, 11, 10, 10, Colour::Red);
    assert!(!a.is_overlapping(&below));
}

#[test]
fn overlap_at_the_extremes_of_i64() {
    let far = Sprite::new(i64::MAX, i64::MAX, u32::MAX, u32::MAX, Colour::Red);
    let near = Sprite::new(i64::MIN, i64::MIN, u32::MAX, u32::MAX, Colour::Red);
    assert!(!far.is_overlapping(&near));
    assert!(far.is_overlapping(&far));
}

#[test]
fn vec2d_constructors() {
    assert_eq!(Vec2D::new(3, -4), Vec2D { x: 3, y: -4 });
    assert_eq!(Vec2D::empty(), Vec2D { x: 0, y: 0 });
}

#[test]
fn sprite_rect_lists_corner_and_size() {
    let s = Sprite::new(-5, 7, 20, 30, Colour::Green);
    assert_eq!(s.get_rect(), [-5, 7, 20, 30]);
}

#[test]
fn coordinates_depend_on_index_and_length_only() {
    let empty = Board::from_length(300);
    let full = full_board(300);
    for i in 0..9 {
        assert_eq!(empty.x_from_index(i), full.x_from_index(i));
        assert_eq!(empty.y_from_index(i), full.y_from_index(i));
        assert_eq!(empty.x_from_index(i), (i as i64 % 3) * 100);
        assert_eq!(empty.y_from_index(i), (i as i64 / 3) * 100);
    }
    let odd = Board::from_length(100);
    assert_eq!(odd.x_from_index(4), 33);
    assert_eq!(odd.y_from_index(7), 66);
}

#[test]
fn add_tile_fills_exactly_one_free_slot() {
    let mut board = Board::from_length(300);
    for k in (1..=9).rev() {
        let before = board.free_positions();
        assert_eq!(before.len(), k);
        let old_tiles = board.tiles;
        board.add_tile();
        let after = board.free_positions();
        assert_eq!(after.len(), k - 1);
        let filled: Vec<usize> = before.iter().copied().filter(|i| !after.contains(i)).collect();
        assert_eq!(filled.len(), 1);
        let i = filled[0];
        assert!(old_tiles[i].is_none());
        let tile = board.tiles[i].unwrap();
        assert_eq!(tile.pos, Vec2D { x: board.x_from_index(i), y: board.y_from_index(i) });
        assert_eq!((tile.width, tile.height, tile.colour), (100, 100, Colour::Red));
        for j in 0..9 {
            if j != i {
                assert_eq!(board.tiles[j], old_tiles[j]);
            }
        }
    }
    assert!(board.is_full());
    let old_tiles = board.tiles;
    board.add_tile();
    assert_eq!(board.tiles, old_tiles);
    assert_eq!(board.random_position(), None);
}

#[test]
fn place_tile_puts_the_cell_tile() {
    let mut board = Board::from_length(90);
    board.place_tile(5);
    assert_eq!(board.free_positions(), vec![0, 1, 2, 3, 4, 6, 7, 8]);
    assert_eq!(board.tiles[5], Some(Sprite::new(60, 30, 30, 30, Colour::Red)));
}

#[test]
fn full_iff_no_free_positions_and_clear_frees_all() {
    let mut board = Board::from_length(300);
    assert!(!board.is_full());
    assert_eq!(board.free_positions(), (0..9).collect::<Vec<usize>>());
    for i in [0, 2, 4, 6, 8, 1, 3, 5] {
        board.place_tile(i);
        assert_eq!(board.is_full(), board.free_positions().is_empty());
    }
    assert_eq!(board.free_positions(), vec![7]);
    board.place_tile(7);
    assert!(board.is_full());
    assert!(board.free_positions().is_empty());
    board.clear_board();
    assert!(!board.is_full());
    assert_eq!(board.free_positions(), (0..9).collect::<Vec<usize>>());
    assert_eq!(board.length, 300);
}

#[test]
fn random_position_picks_free_slots_only() {
    let mut board = Board::from_length(300);
    for i in [0, 1, 2, 3, 5, 6, 7, 8] {
        board.place_tile(i);
    }
    for _ in 0..20 {
        assert_eq!(board.random_position(), Some(4));
    }
}

#[test]
fn random_position_is_not_always_the_first_free_slot() {
    let board = Board::from_length(300);
    let picks: Vec<usize> = (0..200).map(|_| board.random_position().unwrap()).collect();
    assert!(picks.iter().all(|&i| i < 9));
    assert!(picks.iter().any(|&i| i != 0));
}

#[test]
fn board_equality_compares_length_and_tiles() {
    let mut a = Board::from_length(300);
    let mut b = Board::from_length(300);
    assert!(a == b);
    a.place_tile(2);
    assert!(a != b);
    b.place_tile(2);
    assert!(a == b);
    assert!(Board::from_length(300) != Board::from_length(301));
}

#[test]
fn palette_channels() {
    assert_eq!(Colour::Red.rgba(), [255, 0, 0, 255]);
    assert_eq!(Colour::Yellow.rgba(), [255, 255, 0, 255]);
    assert_eq!(Colour::Blue.rgba(), [0, 0, 255, 255]);
    assert_eq!(Colour::Black.rgba(), [0, 0, 0, 255]);
}
