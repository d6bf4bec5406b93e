use river_raid::canvas::{Canvas, Cell, Color, Style};
use river_raid::drawable::{CustomDrawing, Drawable, Stroke};
use river_raid::entities::{Bullet, Enemy, EntityStatus, Fuel, Location, Player};
use river_raid::restorable::Restorable;
use river_raid::world::drawings::Drawings;
use river_raid::world::World;

fn blank_cell() -> Cell {
    Cell { symbol: ' ', style: Style::plain() }
}

#[test]
fn restorable_sets_and_restores() {
    let mut chance = Restorable::new(100u16);
    assert_eq!((chance.baseline, chance.value), (100, 100));
    chance.set(0);
    assert_eq!((chance.baseline, chance.value), (100, 0));
    chance.set(7);
    assert_eq!((chance.baseline, chance.value), (100, 7));
    chance.restore();
    assert_eq!((chance.baseline, chance.value), (100, 100));
    chance.restore();
    assert_eq!((chance.baseline, chance.value), (100, 100));
}

#[test]
fn canvas_starts_blank() {
    let canvas = Canvas::new(4, 3);
    assert_eq!(canvas.max_c(), 4);
    assert_eq!(canvas.max_l(), 3);
    let mut line = 0;
    while line < 3 {
        let mut column = 0;
        while column < 4 {
            assert_eq!(canvas.get(Location::new(column, line)), Some(blank_cell()));
            column += 1;
        }
        line += 1;
    }
    assert_eq!(canvas.get(Location::new(4, 0)), None);
    assert_eq!(canvas.get(Location::new(0, 3)), None);
    let none = Canvas::new(0, 0);
    assert_eq!(none.get(Location::new(0, 0)), None);
}

#[test]
fn canvas_draws_in_place_and_ignores_the_outside() {
    let mut canvas = Canvas::new(4, 3);
    canvas.draw_char(Location::new(3, 2), 'a');
    canvas.draw_styled_char(Location::new(0, 1), 'b', Some(Style::colored(Color::Red)));
    canvas.draw_char(Location::new(4, 2), 'c');
    canvas.draw_char(Location::new(3, 3), 'd');
    assert_eq!(canvas.get(Location::new(3, 2)), Some(Cell { symbol: 'a', style: Style::plain() }));
    assert_eq!(
        canvas.get(Location::new(0, 1)),
        Some(Cell { symbol: 'b', style: Style::colored(Color::Red) })
    );
    assert_eq!(canvas.get(Location::new(0, 0)), Some(blank_cell()));
    assert_eq!(canvas.get(Location::new(0, 2)), Some(blank_cell()));
    assert_eq!(canvas.get(Location::new(3, 1)), Some(blank_cell()));
    canvas.clear();
    assert_eq!(canvas.get(Location::new(3, 2)), Some(blank_cell()));
    assert_eq!(canvas.get(Location::new(0, 1)), Some(blank_cell()));
    assert_eq!(canvas.max_c(), 4);
}

#[test]
fn entities_draw_by_status() {
    let mut canvas = Canvas::new(10, 10);
    Enemy::new((1, 1), 1).draw(&mut canvas);
    Enemy { status: EntityStatus::DeadBody, ..Enemy::new((2, 1), 1) }.draw(&mut canvas);
    Enemy { status: EntityStatus::Dead, ..Enemy::new((3, 1), 1) }.draw(&mut canvas);
    Fuel::new((1, 2), EntityStatus::Alive).draw(&mut canvas);
    Fuel::new((2, 2), EntityStatus::DeadBody).draw(&mut canvas);
    Fuel::new((3, 2), EntityStatus::Dead).draw(&mut canvas);
    Player::new((5, 9), 10).draw(&mut canvas);
    let at = |c, l| canvas.get(Location::new(c, l));
    assert_eq!(at(1, 1), Some(Cell { symbol: 'E', style: Style::colored(Color::Red) }));
    assert_eq!(at(2, 1), Some(Cell { symbol: 'X', style: Style::plain() }));
    assert_eq!(at(3, 1), Some(blank_cell()));
    assert_eq!(at(1, 2), Some(Cell { symbol: 'F', style: Style::colored(Color::Green) }));
    assert_eq!(at(2, 2), Some(Cell { symbol: '$', style: Style::colored(Color::Yellow) }));
    assert_eq!(at(3, 2), Some(blank_cell()));
    assert_eq!(at(5, 9), Some(Cell { symbol: 'P', style: Style::colored(Color::Blue) }));
}

#[test]
fn bullet_draws_shaft_and_tip() {
    let mut canvas = Canvas::new(10, 10);
    Bullet::new((4, 5), 3).draw(&mut canvas);
    Bullet::new((6, 0), 3).draw(&mut canvas);
    let at = |c, l| canvas.get(Location::new(c, l));
    assert_eq!(at(4, 5), Some(Cell { symbol: '|', style: Style::plain() }));
    assert_eq!(at(4, 4), Some(Cell { symbol: '^', style: Style::plain() }));
    assert_eq!(at(6, 0), Some(Cell { symbol: '|', style: Style::plain() }));
    assert_eq!(at(4, 6), Some(blank_cell()));
}

#[test]
fn custom_drawing_replays_its_strokes_in_order() {
    let red = Style::colored(Color::Red);
    let strokes = vec![
        Stroke { location: Location::new(1, 1), symbol: 'a', style: red },
        Stroke { location: Location::new(2, 1), symbol: 'b', style: Style::plain() },
        Stroke { location: Location::new(1, 1), symbol: 'c', style: Style::plain() },
        Stroke { location: Location::new(50, 1), symbol: 'd', style: red },
    ];
    let drawing = CustomDrawing::new(strokes.clone());
    assert_eq!(drawing.strokes(), &strokes);
    let mut canvas = Canvas::new(5, 5);
    drawing.draw(&mut canvas);
    assert_eq!(canvas.get(Location::new(1, 1)), Some(Cell { symbol: 'c', style: Style::plain() }));
    assert_eq!(canvas.get(Location::new(2, 1)), Some(Cell { symbol: 'b', style: Style::plain() }));
    assert_eq!(canvas.get(Location::new(3, 1)), Some(blank_cell()));
    CustomDrawing::new(Vec::new()).draw(&mut canvas);
    assert_eq!(canvas.get(Location::new(1, 1)), Some(Cell { symbol: 'c', style: Style::plain() }));
}

#[test]
fn styles_are_built_from_colours() {
    assert_eq!(Style::plain(), Style { foreground: None, background: None });
    assert_eq!(
        Style::colored(Color::Cyan),
        Style { foreground: Some(Color::Cyan), background: None }
    );
    assert_eq!(
        Style::on(Color::White, Color::Black),
        Style { foreground: Some(Color::White), background: Some(Color::Black) }
    );
}

#[test]
fn popup_is_centred_on_the_middle_line() {
    let world = World::new(20, 11);
    let drawing = world.popup("Warmup", Some(Style::on(Color::Green, Color::Magenta)));
    let strokes = drawing.strokes();
    assert_eq!(strokes.len(), 6);
    let text: String = strokes.iter().map(|stroke| stroke.symbol).collect();
    assert_eq!(text, "Warmup");
    let mut index = 0;
    while index < 6 {
        assert_eq!(strokes[index].location, Location::new(7 + index as u16, 5));
        assert_eq!(strokes[index].style, Style::on(Color::Green, Color::Magenta));
        index += 1;
    }
    let plain = world.popup("ab", None);
    assert_eq!(plain.strokes()[0].style, Style::plain());
    assert_eq!(plain.strokes()[0].location, Location::new(9, 5));
    assert_eq!(plain.strokes()[1].location, Location::new(10, 5));
}

#[test]
fn popup_is_cut_off_at_the_width_of_the_field() {
    let world = World::new(4, 2);
    let drawing = world.popup("Warmup", None);
    let text: String = drawing.strokes().iter().map(|stroke| stroke.symbol).collect();
    assert_eq!(text, "Warm");
    assert_eq!(drawing.strokes()[0].location, Location::new(0, 1));
    assert_eq!(drawing.strokes()[3].location, Location::new(3, 1));
    assert_eq!(world.popup("", None).strokes().len(), 0);
    let narrow = World::new(0, 1);
    assert_eq!(narrow.popup("Warmup", None).strokes().len(), 0);
    let accents = world.popup("héé", None);
    let text: String = accents.strokes().iter().map(|stroke| stroke.symbol).collect();
    assert_eq!(text, "héé");
}

#[test]
fn drawings_are_kept_by_key_in_order() {
    let mut drawings = Drawings::new();
    assert_eq!(drawings.len(), 0);
    assert!(!drawings.contains_key("a"));
    assert!(drawings.get(0).is_none());
    let stroke = |symbol| Stroke { location: Location::new(0, 0), symbol, style: Style::plain() };
    drawings.insert("a".to_string(), CustomDrawing::new(vec![stroke('1')]));
    drawings.insert("b".to_string(), CustomDrawing::new(vec![stroke('2')]));
    drawings.insert("c".to_string(), CustomDrawing::new(vec![stroke('3')]));
    assert_eq!(drawings.len(), 3);
    drawings.insert("a".to_string(), CustomDrawing::new(vec![stroke('4')]));
    assert_eq!(drawings.len(), 3);
    let keys: Vec<String> = (0..3).map(|i| drawings.get(i).unwrap().key.clone()).collect();
    assert_eq!(keys, vec!["b".to_string(), "c".to_string(), "a".to_string()]);
    assert_eq!(drawings.get(2).unwrap().drawing.strokes()[0].symbol, '4');
    drawings.remove("c");
    assert!(!drawings.contains_key("c"));
    assert!(drawings.contains_key("a"));
    assert!(drawings.contains_key("b"));
    assert_eq!(drawings.len(), 2);
    drawings.remove("zzz");
    assert_eq!(drawings.len(), 2);
    assert!(drawings.get(2).is_none());
}

#[test]
fn world_drawings_are_added_and_cleared() {
    let mut world = World::new(20, 10);
    let first = world.popup("one", None);
    let second = world.popup("two", None);
    world.add_drawing("k".to_string(), first);
    assert!(world.has_drawing("k"));
    world.add_drawing("k".to_string(), second);
    assert_eq!(world.custom_drawings.len(), 1);
    let text: String = world.custom_drawings.get(0).unwrap().drawing.strokes().iter()
        .map(|stroke| stroke.symbol).collect();
    assert_eq!(text, "two");
    world.clear_drawing("other");
    assert!(world.has_drawing("k"));
    world.clear_drawing("k");
    assert!(!world.has_drawing("k"));
    world.clear_drawing("k");
    assert_eq!(world.custom_drawings.len(), 0);
}
