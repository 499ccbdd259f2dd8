use password_generator::clipboard::{ClipboardManager, MockClipboardManager};
use password_generator::config::{Config, ConfigManager, MemoryConfigManager};
use password_generator::controllers::password_controller::{masked, shown_form};
use password_generator::controllers::PasswordController;
use password_generator::generators::{PasswordGenerator, Sha256PasswordGenerator};
use std::cell::{Cell, RefCell};
use std::rc::Rc;

type Controller = PasswordController<Sha256PasswordGenerator, MemoryConfigManager, MockClipboardManager>;

fn controller() -> Controller {
    PasswordController::new(Sha256PasswordGenerator, MemoryConfigManager::new(), MockClipboardManager::new())
}

fn revealed() -> Controller {
    PasswordController::with_config(
        Sha256PasswordGenerator,
        MemoryConfigManager::new(),
        MockClipboardManager::new(),
        Config { show_password: true },
    )
}

#[test]
fn no_password_while_an_input_is_empty() {
    let controller = controller();
    assert_eq!(controller.generate_password("", "x"), "");
    assert_eq!(controller.generate_password("x", ""), "");
    assert_eq!(controller.generate_password("", ""), "");
}

#[test]
fn delegates_to_the_strategy_when_both_inputs_are_given() {
    let controller = controller();
    assert_eq!(controller.generate_password("hunter2", "github"), "a71373f244ea4e20");
    assert_eq!(controller.generate_password("s", "l"), "d360292211495bbb");
    assert_eq!(controller.generate_password("s", "l"), Sha256PasswordGenerator.generate("s", "l"));
}

#[test]
fn starts_hidden_when_the_store_holds_nothing() {
    assert!(!controller().is_password_visible());
}

#[test]
fn starts_from_what_the_store_loads() {
    let mut store = MemoryConfigManager::new();
    store.save(&Config { show_password: true });
    let controller = PasswordController::new(Sha256PasswordGenerator, store, MockClipboardManager::new());
    assert!(controller.is_password_visible());
    assert_eq!(controller.get_visible_password("s", "l"), "d360292211495bbb");
}

#[test]
fn starts_from_the_last_of_several_records() {
    let mut store = MemoryConfigManager::new();
    store.save(&Config { show_password: false });
    store.save(&Config { show_password: true });
    let controller = PasswordController::new(Sha256PasswordGenerator, store, MockClipboardManager::new());
    assert!(controller.is_password_visible());
    assert_eq!(controller.store().load(), Config { show_password: true });
}

#[test]
fn a_hidden_password_is_masked_star_for_character() {
    let controller = controller();
    let password = controller.generate_password("hunter2", "github");
    let shown = controller.get_visible_password("hunter2", "github");
    assert_eq!(shown, "****************");
    assert_eq!(shown.len(), password.len());
    assert!(shown.chars().all(|c| c == '*'));
}

#[test]
fn a_revealed_password_is_shown_as_it_is() {
    let controller = revealed();
    assert_eq!(controller.get_visible_password("hunter2", "github"), "a71373f244ea4e20");
}

#[test]
fn nothing_is_shown_while_an_input_is_empty() {
    for controller in [controller(), revealed()] {
        assert_eq!(controller.get_visible_password("", "x"), "");
        assert_eq!(controller.get_visible_password("x", ""), "");
        assert_eq!(controller.get_visible_password("", ""), "");
    }
}

#[test]
fn the_mask_has_one_star_per_byte() {
    assert_eq!(masked(""), "");
    assert_eq!(masked("a"), "*");
    assert_eq!(masked("abc"), "***");
    assert_eq!(masked("é"), "**");
    assert_eq!(masked("日本"), "******");
    assert_eq!(masked("é").len(), "é".len());
}

#[test]
fn the_shown_form_follows_the_visibility() {
    assert_eq!(shown_form(String::from("abc"), true), "abc");
    assert_eq!(shown_form(String::from("abc"), false), "***");
    assert_eq!(shown_form(String::new(), true), "");
    assert_eq!(shown_form(String::new(), false), "");
}

#[test]
fn toggling_negates_the_visibility() {
    let mut controller = controller();
    let before = controller.is_password_visible();
    controller.toggle_password_visibility();
    assert_eq!(controller.is_password_visible(), !before);
    controller.toggle_password_visibility();
    assert_eq!(controller.is_password_visible(), before);
}

#[test]
fn toggling_saves_the_new_preference_at_once() {
    let mut controller = controller();
    controller.toggle_password_visibility();
    assert_eq!(controller.store().load(), Config { show_password: true });
    assert_eq!(controller.store().load().show_password, controller.is_password_visible());
    controller.toggle_password_visibility();
    assert_eq!(controller.store().load(), Config { show_password: false });
    assert_eq!(controller.store().load().show_password, controller.is_password_visible());
}

#[test]
fn toggling_changes_what_is_shown() {
    let mut controller = controller();
    assert_eq!(controller.get_visible_password("s", "l"), "****************");
    controller.toggle_password_visibility();
    assert_eq!(controller.get_visible_password("s", "l"), "d360292211495bbb");
    controller.toggle_password_visibility();
    assert_eq!(controller.get_visible_password("s", "l"), "****************");
}

#[test]
fn copying_with_an_empty_input_does_nothing() {
    let mut controller = controller();
    assert!(!controller.copy_password_to_clipboard("", "x"));
    assert!(!controller.copy_password_to_clipboard("x", ""));
    assert!(!controller.copy_password_to_clipboard("", ""));
    assert_eq!(controller.clipboard().count(), 0);
}

#[test]
fn copying_hands_the_raw_password_to_the_sink_once() {
    let mut controller = controller();
    assert!(controller.copy_password_to_clipboard("s", "l"));
    assert_eq!(controller.clipboard().count(), 1);
    assert_eq!(controller.clipboard().text(0), Some(String::from("d360292211495bbb")));
    assert_eq!(controller.clipboard().text(0), Some(controller.generate_password("s", "l")));
}

#[test]
fn copying_hands_over_the_password_even_when_it_is_hidden() {
    let mut controller = controller();
    assert!(!controller.is_password_visible());
    assert!(controller.copy_password_to_clipboard("hunter2", "github"));
    assert_eq!(controller.clipboard().text(0), Some(String::from("a71373f244ea4e20")));
}

#[test]
fn copying_leaves_the_visibility_and_the_store_alone() {
    let mut controller = revealed();
    assert!(controller.copy_password_to_clipboard("s", "l"));
    assert!(controller.is_password_visible());
    assert_eq!(controller.store().load(), Config { show_password: false });
}

#[test]
fn each_copy_adds_one_text() {
    let mut controller = controller();
    assert!(controller.copy_password_to_clipboard("s", "l"));
    assert!(!controller.copy_password_to_clipboard("", "l"));
    assert!(controller.copy_password_to_clipboard("hunter2", "github"));
    assert_eq!(controller.clipboard().count(), 2);
    assert_eq!(controller.clipboard().text(0), Some(String::from("d360292211495bbb")));
    assert_eq!(controller.clipboard().text(1), Some(String::from("a71373f244ea4e20")));
}

struct SharedStore(Rc<Cell<Option<bool>>>);

impl ConfigManager for SharedStore {
    fn load(&self) -> Config {
        Config { show_password: self.0.get().unwrap_or(false) }
    }

    fn save(&mut self, config: &Config) {
        self.0.set(Some(config.show_password));
    }
}

struct SharedSink(Rc<RefCell<Vec<String>>>);

impl ClipboardManager for SharedSink {
    fn copy_to_clipboard(&mut self, text: &str) {
        self.0.borrow_mut().push(text.to_string());
    }
}

struct Silent;

impl PasswordGenerator for Silent {
    fn generate(&self, _secret: &str, _service: &str) -> String {
        String::new()
    }
}

#[test]
fn works_with_collaborators_written_outside_the_library() {
    let stored = Rc::new(Cell::new(Some(true)));
    let copied = Rc::new(RefCell::new(Vec::new()));
    let mut controller =
        PasswordController::new(Sha256PasswordGenerator, SharedStore(stored.clone()), SharedSink(copied.clone()));
    assert!(controller.is_password_visible());
    controller.toggle_password_visibility();
    assert_eq!(stored.get(), Some(false));
    assert!(controller.copy_password_to_clipboard("s", "l"));
    assert!(!controller.copy_password_to_clipboard("", "x"));
    assert_eq!(*copied.borrow(), vec![String::from("d360292211495bbb")]);
}

#[test]
fn a_strategy_that_derives_nothing_copies_nothing() {
    let copied = Rc::new(RefCell::new(Vec::new()));
    let mut controller = PasswordController::new(Silent, MemoryConfigManager::new(), SharedSink(copied.clone()));
    assert_eq!(controller.get_visible_password("s", "l"), "");
    assert!(!controller.copy_password_to_clipboard("s", "l"));
    assert!(copied.borrow().is_empty());
}
