use chip8_emu::font;
use chip8_emu::machine::{LoadError, Machine, DISPLAY_HEIGHT, DISPLAY_WIDTH, GAME_MEM_START};

#[test]
fn memory_length_is_4_kib() {
    let machine = Machine::default();
    assert_eq!(machine.memory.len(), 4096);
}

#[test]
fn font_is_copied_into_memory() {
    let machine = Machine::default();
    assert_eq!(machine.memory[font::START], font::VALUES[0])
}

#[test]
fn display_pixels_start_as_disabled() {
    let machine = Machine::default();
    for x in 0..DISPLAY_WIDTH {
        for y in 0..DISPLAY_HEIGHT {
            assert_eq!(machine.display.pixel(x, y), Some(false))
        }
    }
}

#[test]
fn timers_start_at_zero() {
    let machine = Machine::default();
    assert_eq!(machine.delay_timer, 0, "delay timer should be zero");
    assert_eq!(machine.sound_timer, 0, "sound timer should be zero");
}

#[test]
fn whole_font_is_copied_and_rest_is_zero() {
    let machine = Machine::default();
    assert_eq!(font::VALUES.len(), 80);
    for (i, byte) in font::VALUES.iter().enumerate() {
        assert_eq!(machine.memory[font::START + i], *byte);
    }
    for (addr, byte) in machine.memory.iter().enumerate() {
        if addr < font::START || addr >= font::START + font::VALUES.len() {
            assert_eq!(*byte, 0, "address {addr:#x} should be zero");
        }
    }
    assert!(font::START + font::VALUES.len() <= GAME_MEM_START);
}

#[test]
fn display_is_64_by_32() {
    let machine = Machine::default();
    assert_eq!(machine.display.pixel(63, 31), Some(false));
    assert_eq!(machine.display.pixel(64, 0), None);
    assert_eq!(machine.display.pixel(0, 32), None);
}

#[test]
fn stack_starts_empty() {
    let machine = Machine::default();
    assert!(machine.stack.is_empty());
}

#[test]
fn should_beep_follows_sound_timer() {
    let mut machine = Machine::default();
    assert!(!machine.should_beep());
    machine.sound_timer = 1;
    assert!(machine.should_beep());
    machine.sound_timer = 255;
    assert!(machine.should_beep());
    machine.sound_timer = 0;
    assert!(!machine.should_beep());
}

#[test]
fn load_game_places_bytes_at_0x200() {
    let mut machine = Machine::default();
    let fresh = machine.memory.clone();
    assert!(machine.load_game(vec![0xAB, 0xCD]).is_ok());
    assert_eq!(machine.memory[0x200], 0xAB);
    assert_eq!(machine.memory[0x201], 0xCD);
    for addr in 0..4096 {
        if addr != 0x200 && addr != 0x201 {
            assert_eq!(machine.memory[addr], fresh[addr]);
        }
        if addr >= 0x202 || addr < font::START {
            assert_eq!(machine.memory[addr], 0);
        }
    }
}

#[test]
fn load_game_can_be_chained() {
    let mut machine = Machine::default();
    let loaded = machine.load_game(vec![1, 2, 3]).unwrap();
    loaded.sound_timer = 5;
    assert_eq!(machine.memory[0x202], 3);
    assert!(machine.should_beep());
}

#[test]
fn load_game_keeps_timers_and_display() {
    let mut machine = Machine::default();
    machine.delay_timer = 7;
    machine.load_game(vec![9; 10]).unwrap();
    assert_eq!(machine.delay_timer, 7);
    assert_eq!(machine.sound_timer, 0);
    assert_eq!(machine.display.pixel(0, 0), Some(false));
    assert!(machine.stack.is_empty());
}

#[test]
fn oversized_game_is_refused() {
    let mut machine = Machine::default();
    let fresh = machine.memory.clone();
    let result = machine.load_game(vec![0x11; 3585]);
    assert_eq!(result.err(), Some(LoadError::MemoryOverflow));
    assert_eq!(machine.memory, fresh);
}

#[test]
fn game_filling_all_memory_is_accepted() {
    let mut machine = Machine::default();
    assert!(machine.load_game(vec![0x22; 3584]).is_ok());
    assert_eq!(machine.memory.len(), 4096);
    assert_eq!(machine.memory[0x1FF], 0);
    assert_eq!(machine.memory[0x200], 0x22);
    assert_eq!(machine.memory[4095], 0x22);
}

#[test]
fn empty_game_leaves_memory_unchanged() {
    let mut machine = Machine::default();
    let fresh = machine.memory.clone();
    assert!(machine.load_game(Vec::new()).is_ok());
    assert_eq!(machine.memory, fresh);
}

#[test]
fn short_memory_refuses_game() {
    let mut machine = Machine::default();
    machine.memory.truncate(0x100);
    let result = machine.load_game(vec![1]);
    assert_eq!(result.err(), Some(LoadError::MemoryOverflow));
    assert_eq!(machine.memory.len(), 0x100);
}

#[test]
fn set_pixel_changes_one_cell() {
    let mut machine = Machine::default();
    assert!(machine.display.set_pixel(3, 7, true));
    assert_eq!(machine.display.pixel(3, 7), Some(true));
    assert_eq!(machine.display.pixel(7, 3), Some(false));
    assert_eq!(machine.display.pixel(4, 7), Some(false));
    assert!(machine.display.set_pixel(3, 7, false));
    assert_eq!(machine.display.pixel(3, 7), Some(false));
}

#[test]
fn set_pixel_off_screen_is_refused() {
    let mut machine = Machine::default();
    assert!(!machine.display.set_pixel(64, 0, true));
    assert!(!machine.display.set_pixel(0, 32, true));
    assert_eq!(machine.display.pixel(64, 0), None);
    for x in 0..DISPLAY_WIDTH {
        for y in 0..DISPLAY_HEIGHT {
            assert_eq!(machine.display.pixel(x, y), Some(false));
        }
    }
}
