//! The console device, the game world, the allocator and the text
//! helpers.

use cvere::console::Console;
use cvere::text;
use cvere::world::{GameWorld, MemoryAllocator};

#[test]
fn test_console_print_and_output() {
    let mut c = Console::new();
    c.print_str("hi");
    c.print_char('!');
    assert_eq!(c.get_output(), "hi!");
    c.print_hex(0xBEEF);
    assert_eq!(c.get_output(), "hi!0xBEEF");
    c.clear_output();
    assert_eq!(c.get_output(), "");
}

#[test]
fn test_console_read_char_order() {
    let mut c = Console::new();
    assert_eq!(c.read_char(), None);
    c.queue_input("ab");
    assert_eq!(c.read_char(), Some('a'));
    assert_eq!(c.read_char(), Some('b'));
    assert_eq!(c.read_char(), None);
}

#[test]
fn test_console_read_line_with_newline() {
    let mut c = Console::new();
    c.queue_input("one\ntwo");
    assert_eq!(c.read_line(), Some("one".to_string()));
    assert_eq!(c.read_line(), Some("two".to_string()), "no newline: the rest is the line");
    assert_eq!(c.read_line(), None, "empty input reads nothing");
}

#[test]
fn test_console_read_line_empty_line() {
    let mut c = Console::new();
    c.queue_input("\nrest");
    assert_eq!(c.read_line(), Some(String::new()), "a leading newline yields an empty line");
    assert_eq!(c.read_line(), Some("rest".to_string()));
}

#[test]
fn test_console_set_color() {
    let mut c = Console::new();
    c.set_color(0x1F);
    c.print_str("x");
    assert_eq!(c.get_output(), "x");
}

#[test]
fn test_world_entities() {
    let mut w = GameWorld::new();
    let a = w.create_entity(7, 1, 2);
    let b = w.create_entity(9, -3, 4);
    assert_eq!(a, 1);
    assert_eq!(b, 2);
    let e = w.get_entity(a).unwrap();
    assert_eq!(e.entity_type, 7);
    assert_eq!((e.x, e.y, e.z), (1, 2, 0));
    assert!(w.destroy_entity(a));
    assert!(!w.destroy_entity(a), "already gone");
    assert!(w.get_entity(a).is_none());
    assert!(w.get_entity(b).is_some());
}

#[test]
fn test_world_tiles() {
    let mut w = GameWorld::new();
    assert_eq!(w.get_tile(3, 5), 0);
    w.set_tile(3, 5, 42);
    assert_eq!(w.get_tile(3, 5), 42);
    assert_eq!(w.get_tile(5, 3), 0);
    w.set_tile(300, 5, 9);
    assert_eq!(w.get_tile(300, 5), 0, "off the map reads zero");
    assert_eq!((w.player_x, w.player_y), (128, 128));
}

#[test]
fn test_allocator() {
    let mut a = MemoryAllocator::new(0x8000, 0x8010);
    let p = a.allocate(8).unwrap();
    assert_eq!(p, 0x8000);
    let q = a.allocate(8).unwrap();
    assert_eq!(q, 0x8008);
    assert_eq!(a.allocate(1), None, "the heap is full");
    assert_eq!(a.get_stats(), (16, 0, 16));
    assert!(a.free(p));
    assert!(!a.free(p), "double free reports false");
    // A bump allocator does not reuse freed space.
    assert_eq!(a.allocate(1), None);
}

#[test]
fn test_allocator_large_request_no_overflow() {
    let mut a = MemoryAllocator::new(0xF000, 0xFFFF);
    assert_eq!(a.allocate(0xFFFF), None, "a request past the heap end is refused");
    assert_eq!(a.allocate(0x0FFF).unwrap(), 0xF000);
}

#[test]
fn test_text_helpers() {
    assert_eq!(text::hex4(0xABCD), "ABCD");
    assert_eq!(text::hex4(0x0001), "0001");
    assert_eq!(text::dec_u64(0), "0");
    assert_eq!(text::dec_u64(12345), "12345");
    assert_eq!(text::dec_u64(u64::MAX), "18446744073709551615");
    assert_eq!(text::byte_ascii(0x41), 'A');
    assert_eq!(text::byte_ascii(0x07), '.');
}
