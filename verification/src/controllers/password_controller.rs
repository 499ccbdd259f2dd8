use crate::clipboard::traits::ClipboardManager;
use crate::config::config_types::Config;
use crate::config::traits::{last_saved, ConfigManager};
use crate::generators::sha256_generator::{
    derived_password, is_lower_hex, lemma_derived_password_is_sixteen_lower_hex,
};
use crate::generators::traits::PasswordGenerator;
use vstd::prelude::*;
use vstd::string::*;
use vstd::utf8::*;

verus! {

/// The mask shown in place of a password: one `*` per byte of its UTF-8 form.
pub open spec fn mask(password: Seq<char>) -> Seq<char> {
    Seq::new(encode_utf8(password).len(), |i: int| '*')
}

/// Builds the mask for a password.
pub fn masked(password: &str) -> (stars: String)
    ensures
        stars@ == mask(password@),
{
    let n = password.as_bytes().len();
    let mut stars = String::new();
    let mut i: usize = 0;
    assert(stars@ =~= Seq::new(0, |j: int| '*'));
    while i < n
        invariant
            i <= n,
            stars@ == Seq::new(i as nat, |j: int| '*'),
        decreases n - i,
    {
        proof {
            reveal_strlit("*");
        }
        stars.append("*");
        i += 1;
        assert(stars@ =~= Seq::new(i as nat, |j: int| '*'));
    }
    assert(stars@ =~= mask(password@));
    stars
}

/// A mask consists of `*` alone, with one `*` for each byte of the password's
/// UTF-8 form, so that the mask and the password are equally long as strings.
pub proof fn lemma_mask_is_stars_of_equal_length(password: Seq<char>)
    ensures
        forall|i: int| 0 <= i < mask(password).len() ==> #[trigger] mask(password)[i] == '*',
        mask(password).len() == encode_utf8(password).len(),
        encode_utf8(mask(password)).len() == encode_utf8(password).len(),
{
    assert(is_ascii_chars(mask(password)));
    is_ascii_chars_encode_utf8(mask(password));
}

/// The mask of a password made of ASCII characters alone has as many
/// characters as the password.
pub proof fn lemma_mask_keeps_ascii_length(password: Seq<char>)
    requires
        is_ascii_chars(password),
    ensures
        mask(password).len() == password.len(),
{
    is_ascii_chars_encode_utf8(password);
}

/// The mask of a password derived from a SHA-256 digest is sixteen `*`.
pub proof fn lemma_mask_of_derived_password(secret: Seq<char>, service: Seq<char>)
    ensures
        mask(derived_password(secret, service)) == Seq::new(16, |i: int| '*'),
{
    let password = derived_password(secret, service);
    lemma_derived_password_is_sixteen_lower_hex(secret, service);
    assert forall|i: int| 0 <= i < password.len() implies '\0' <= #[trigger] password[i]
        <= '\u{7f}' by {
        assert(is_lower_hex(password[i]));
    }
    lemma_mask_keeps_ascii_length(password);
    assert(mask(password) =~= Seq::new(16, |i: int| '*'));
}

/// What is shown for a password: itself when passwords are visible, its mask
/// when they are not.
pub open spec fn shown(password: Seq<char>, visible: bool) -> Seq<char> {
    if visible {
        password
    } else {
        mask(password)
    }
}

/// Decides what is shown for a password that was derived.
pub fn shown_form(password: String, visible: bool) -> (form: String)
    ensures
        form@ == shown(password@, visible),
{
    if password.as_str().is_empty() {
        proof {
            assert(mask(password@) =~= Seq::<char>::empty());
        }
        return String::new();
    }
    if visible {
        password
    } else {
        masked(password.as_str())
    }
}

/// Derives passwords on demand, shows them masked or in clear as the
/// visibility preference says, and forwards them to the clipboard.
pub struct PasswordController<G: PasswordGenerator, C: ConfigManager, B: ClipboardManager> {
    password_generator: G,
    config_manager: C,
    clipboard_manager: B,
    config: Config,
}

impl<G: PasswordGenerator, C: ConfigManager, B: ClipboardManager> PasswordController<G, C, B> {
    /// The derivation strategy in use.
    pub closed spec fn password_generator(&self) -> G {
        self.password_generator
    }

    /// The store that keeps the visibility preference.
    pub closed spec fn config_manager(&self) -> C {
        self.config_manager
    }

    /// The clipboard sink.
    pub closed spec fn clipboard_manager(&self) -> B {
        self.clipboard_manager
    }

    /// The visibility preference in force.
    pub closed spec fn config(&self) -> Config {
        self.config
    }

    /// The password for a secret and a service: none while either is empty.
    pub open spec fn password(&self, secret: Seq<char>, service: Seq<char>) -> Seq<char> {
        if secret.len() == 0 || service.len() == 0 {
            Seq::empty()
        } else {
            self.password_generator().derived(secret, service)
        }
    }

    /// What is shown for a secret and a service: the password itself when
    /// passwords are visible, its mask when they are not.
    pub open spec fn visible_password(&self, secret: Seq<char>, service: Seq<char>) -> Seq<char> {
        shown(self.password(secret, service), self.config().show_password)
    }

    /// A controller that starts from a given visibility preference.
    pub fn with_config(
        password_generator: G,
        config_manager: C,
        clipboard_manager: B,
        config: Config,
    ) -> (controller: Self)
        ensures
            controller.password_generator() == password_generator,
            controller.config_manager() == config_manager,
            controller.clipboard_manager() == clipboard_manager,
            controller.config() == config,
    {
        PasswordController { password_generator, config_manager, clipboard_manager, config }
    }

    /// A controller that starts from the preference its store loads.
    pub fn new(
        password_generator: G,
        config_manager: C,
        clipboard_manager: B,
    ) -> (controller: Self)
        ensures
            controller.password_generator() == password_generator,
            controller.config_manager() == config_manager,
            controller.clipboard_manager() == clipboard_manager,
            config_manager.keeps_records() ==> controller.config() == last_saved(
                config_manager.saved(),
            ),
    {
        let config = config_manager.load();
        Self::with_config(password_generator, config_manager, clipboard_manager, config)
    }

    /// The password for a secret and a service: empty while either is empty,
    /// what the strategy derives otherwise.
    pub fn generate_password(&self, secret: &str, service: &str) -> (password: String)
        ensures
            secret@.len() == 0 || service@.len() == 0 ==> password@ == Seq::<char>::empty(),
            self.password_generator().obeys_derived() ==> password@ == self.password(
                secret@,
                service@,
            ),
    {
        if secret.is_empty() || service.is_empty() {
            return String::new();
        }
        self.password_generator.generate(secret, service)
    }

    /// What to show for a secret and a service: the password when passwords
    /// are visible, a mask of `*` when they are not, nothing while there is
    /// no password.
    pub fn get_visible_password(&self, secret: &str, service: &str) -> (shown: String)
        ensures
            secret@.len() == 0 || service@.len() == 0 ==> shown@ == Seq::<char>::empty(),
            !self.config().show_password ==> forall|i: int|
                0 <= i < shown@.len() ==> shown@[i] == '*',
            self.password_generator().obeys_derived() ==> shown@ == self.visible_password(
                secret@,
                service@,
            ),
    {
        let password = self.generate_password(secret, service);
        shown_form(password, self.config.show_password)
    }

    /// Flips the visibility preference and hands the new record to the store
    /// at once.
    pub fn toggle_password_visibility(&mut self)
        ensures
            final(self).config().show_password == !old(self).config().show_password,
            old(self).config_manager().keeps_records() ==> {
                &&& final(self).config_manager().keeps_records()
                &&& final(self).config_manager().saved() == old(self).config_manager().saved().push(
                    final(self).config(),
                )
            },
            final(self).password_generator() == old(self).password_generator(),
            final(self).clipboard_manager() == old(self).clipboard_manager(),
    {
        self.config.show_password = !self.config.show_password;
        self.config_manager.save(&self.config);
    }

    /// Hands the password itself, never its mask, to the clipboard sink, once,
    /// and says so; hands over nothing while there is no password.
    pub fn copy_password_to_clipboard(&mut self, secret: &str, service: &str) -> (copied: bool)
        ensures
            secret@.len() == 0 || service@.len() == 0 ==> !copied,
            old(self).password_generator().obeys_derived() ==> copied == (old(self).password(
                secret@,
                service@,
            ).len() > 0),
            !copied ==> final(self).clipboard_manager() == old(self).clipboard_manager(),
            copied && old(self).clipboard_manager().keeps_account() ==> {
                &&& final(self).clipboard_manager().keeps_account()
                &&& exists|text: Seq<char>|
                    text.len() > 0 && #[trigger] old(self).clipboard_manager().copied().push(text)
                        == final(self).clipboard_manager().copied()
            },
            copied && old(self).clipboard_manager().keeps_account() && old(self).password_generator().obeys_derived()
                ==> final(self).clipboard_manager().copied() == old(self).clipboard_manager().copied().push(
                old(self).password(secret@, service@),
            ),
            final(self).password_generator() == old(self).password_generator(),
            final(self).config_manager() == old(self).config_manager(),
            final(self).config() == old(self).config(),
    {
        let password = self.generate_password(secret, service);
        if !password.as_str().is_empty() {
            self.clipboard_manager.copy_to_clipboard(password.as_str());
            true
        } else {
            false
        }
    }

    /// The store that keeps the visibility preference.
    pub fn store(&self) -> (store: &C)
        ensures
            *store == self.config_manager(),
    {
        &self.config_manager
    }

    /// The clipboard sink.
    pub fn clipboard(&self) -> (sink: &B)
        ensures
            *sink == self.clipboard_manager(),
    {
        &self.clipboard_manager
    }

    /// Whether passwords are shown in clear.
    pub fn is_password_visible(&self) -> (visible: bool)
        ensures
            visible == self.config().show_password,
    {
        self.config.show_password
    }
}

} // verus!
