use mars_rover::mars::{Mars, MarsRenderer, SimpleMarsRenderer};
use mars_rover::rover::{Orientation, Position, Rover};

#[test]
fn shall_display_mars_with_obstacles() {
    let mut mars = Mars::new(3);
    mars.add_obstacle(Position { x: 1, y: 1 });
    let rover = Rover::new(Orientation::North);
    let representation = SimpleMarsRenderer::new().render(&mars, &rover);
    assert_eq!("...\n.X.\n^..\n", representation);
}

#[test]
fn shall_display_mars_with_rover() {
    let mars = Mars::new(3);
    let rover = Rover::new(Orientation::North);
    let representation = SimpleMarsRenderer::new().render(&mars, &rover);
    assert_eq!("...\n...\n^..\n", representation);
}

#[test]
fn obstacles_are_found_by_exact_position() {
    let mut mars = Mars::new(5);
    assert!(!mars.has_obstacle(Position { x: 1, y: 1 }));
    mars.add_obstacle(Position { x: 1, y: 1 });
    mars.add_obstacle(Position { x: -2, y: 7 });
    assert!(mars.has_obstacle(Position { x: 1, y: 1 }));
    assert!(mars.has_obstacle(Position { x: -2, y: 7 }));
    assert!(!mars.has_obstacle(Position { x: 1, y: 2 }));
    assert!(!mars.has_obstacle(Position { x: 2, y: 1 }));
}

#[test]
fn duplicate_obstacles_are_harmless() {
    let mut mars = Mars::new(2);
    mars.add_obstacle(Position { x: 0, y: 1 });
    mars.add_obstacle(Position { x: 0, y: 1 });
    assert!(mars.has_obstacle(Position { x: 0, y: 1 }));
    let rover = Rover { position: Position { x: 1, y: 0 }, orientation: Orientation::East };
    assert_eq!("X.\n.>\n", SimpleMarsRenderer::new().render(&mars, &rover));
}

#[test]
fn rover_glyph_wins_over_obstacle() {
    let mut mars = Mars::new(3);
    mars.add_obstacle(Position { x: 0, y: 0 });
    let rover = Rover::new(Orientation::West);
    assert_eq!("...\n...\n<..\n", SimpleMarsRenderer::new().render(&mars, &rover));
}

#[test]
fn every_heading_has_its_glyph() {
    let mars = Mars::new(1);
    let renderer = SimpleMarsRenderer::new();
    assert_eq!("^\n", renderer.render(&mars, &Rover::new(Orientation::North)));
    assert_eq!(">\n", renderer.render(&mars, &Rover::new(Orientation::East)));
    assert_eq!("v\n", renderer.render(&mars, &Rover::new(Orientation::South)));
    assert_eq!("<\n", renderer.render(&mars, &Rover::new(Orientation::West)));
}

#[test]
fn top_line_is_the_largest_y() {
    let mut mars = Mars::new(4);
    mars.add_obstacle(Position { x: 3, y: 0 });
    let rover = Rover { position: Position { x: 2, y: 3 }, orientation: Orientation::South };
    assert_eq!("..v.\n....\n....\n...X\n", SimpleMarsRenderer::new().render(&mars, &rover));
}

#[test]
fn rover_and_obstacles_outside_the_grid_are_not_shown() {
    let mut mars = Mars::new(2);
    mars.add_obstacle(Position { x: 2, y: 0 });
    mars.add_obstacle(Position { x: -1, y: 1 });
    let rover = Rover { position: Position { x: 5, y: 5 }, orientation: Orientation::North };
    assert_eq!("..\n..\n", SimpleMarsRenderer::new().render(&mars, &rover));
}

#[test]
fn empty_grid_renders_as_nothing() {
    let mars = Mars::new(0);
    let rover = Rover::new(Orientation::North);
    assert_eq!("", SimpleMarsRenderer::new().render(&mars, &rover));
}

#[test]
fn rendering_has_size_lines_of_size_glyphs() {
    let mars = Mars::new(6);
    let rover = Rover::new(Orientation::East);
    let text = SimpleMarsRenderer::new().render(&mars, &rover);
    let lines: Vec<&str> = text.split_terminator('\n').collect();
    assert_eq!(6, lines.len());
    assert!(lines.iter().all(|l| l.len() == 6));
    assert!(text.ends_with('\n'));
}

#[test]
fn cell_and_rover_texts() {
    let mut mars = Mars::new(3);
    mars.add_obstacle(Position { x: 2, y: 2 });
    let rover = Rover::new(Orientation::South);
    let renderer = SimpleMarsRenderer::new();
    assert_eq!("v", renderer.render_rover(&rover));
    assert_eq!("v", renderer.render_cell(Position { x: 0, y: 0 }, &mars, &rover));
    assert_eq!("X", renderer.render_cell(Position { x: 2, y: 2 }, &mars, &rover));
    assert_eq!(".", renderer.render_cell(Position { x: 1, y: 2 }, &mars, &rover));
}

#[test]
fn renderer_through_the_trait() {
    let mut mars = Mars::new(3);
    mars.add_obstacle(Position { x: 1, y: 1 });
    let rover = Rover::new(Orientation::North);
    let renderer: Box<dyn MarsRenderer> = Box::new(SimpleMarsRenderer::new());
    assert_eq!("...\n.X.\n^..\n", renderer.render(&mars, &rover));
}
