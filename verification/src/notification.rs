//! The notification descriptor a platform notifier consumes.
//!
//! A [`SimpleNotification`] is a plain value built up by consuming builder
//! calls; how a platform renders it (a toast, a banner) is the business of
//! the collaborator the descriptor is handed to.

use vstd::prelude::*;

verus! {

/// A basic notification, intended to work across platforms; the image and
/// application-id fields only matter to platforms that know them.
#[derive(Clone, Debug)]
pub struct SimpleNotification {
    pub title: String,
    pub text: Vec<String>,
    pub app_logo: String,
    pub hero_image: String,
    pub app_id: String,
}

/// The mathematical value of a [`SimpleNotification`].
pub struct SimpleNotificationView {
    pub title: Seq<char>,
    pub text: Seq<Seq<char>>,
    pub app_logo: Seq<char>,
    pub hero_image: Seq<char>,
    pub app_id: Seq<char>,
}

impl View for SimpleNotification {
    type V = SimpleNotificationView;

    open spec fn view(&self) -> SimpleNotificationView {
        SimpleNotificationView {
            title: self.title@,
            text: self.text@.map_values(|line: String| line@),
            app_logo: self.app_logo@,
            hero_image: self.hero_image@,
            app_id: self.app_id@,
        }
    }
}

impl SimpleNotification {
    /// A notification with the given title, no body lines, and every other
    /// field empty.
    pub fn new(title: String) -> (r: SimpleNotification)
        ensures
            r@.title == title@,
            r@.text == Seq::<Seq<char>>::empty(),
            r@.app_logo == Seq::<char>::empty(),
            r@.hero_image == Seq::<char>::empty(),
            r@.app_id == Seq::<char>::empty(),
    {
        let r = SimpleNotification {
            title,
            text: Vec::new(),
            app_logo: String::new(),
            hero_image: String::new(),
            app_id: String::new(),
        };
        proof {
            assert(r@.text =~= Seq::<Seq<char>>::empty());
        }
        r
    }

    /// Replace the title.
    pub fn set_title(self, title: String) -> (r: SimpleNotification)
        ensures
            r@.title == title@,
            r@.text == self@.text,
            r@.app_logo == self@.app_logo,
            r@.hero_image == self@.hero_image,
            r@.app_id == self@.app_id,
    {
        SimpleNotification {
            title,
            text: self.text,
            app_logo: self.app_logo,
            hero_image: self.hero_image,
            app_id: self.app_id,
        }
    }

    /// Append one line to the body text.
    pub fn add_text(self, line: String) -> (r: SimpleNotification)
        ensures
            r@.title == self@.title,
            r@.text == self@.text.push(line@),
            r@.app_logo == self@.app_logo,
            r@.hero_image == self@.hero_image,
            r@.app_id == self@.app_id,
    {
        let mut text = self.text;
        let ghost before = text@;
        text.push(line);
        proof {
            assert(text@.map_values(|l: String| l@) =~= before.map_values(|l: String| l@).push(
                line@,
            ));
        }
        SimpleNotification {
            title: self.title,
            text,
            app_logo: self.app_logo,
            hero_image: self.hero_image,
            app_id: self.app_id,
        }
    }

    /// Replace the whole body text.
    pub fn set_text(self, text: Vec<String>) -> (r: SimpleNotification)
        ensures
            r@.title == self@.title,
            r@.text == text@.map_values(|line: String| line@),
            r@.app_logo == self@.app_logo,
            r@.hero_image == self@.hero_image,
            r@.app_id == self@.app_id,
    {
        SimpleNotification {
            title: self.title,
            text,
            app_logo: self.app_logo,
            hero_image: self.hero_image,
            app_id: self.app_id,
        }
    }

    /// Set the application logo image reference.
    pub fn set_app_logo(self, app_logo: String) -> (r: SimpleNotification)
        ensures
            r@.title == self@.title,
            r@.text == self@.text,
            r@.app_logo == app_logo@,
            r@.hero_image == self@.hero_image,
            r@.app_id == self@.app_id,
    {
        SimpleNotification {
            title: self.title,
            text: self.text,
            app_logo,
            hero_image: self.hero_image,
            app_id: self.app_id,
        }
    }

    /// Set the hero image reference.
    pub fn set_hero_image(self, hero_image: String) -> (r: SimpleNotification)
        ensures
            r@.title == self@.title,
            r@.text == self@.text,
            r@.app_logo == self@.app_logo,
            r@.hero_image == hero_image@,
            r@.app_id == self@.app_id,
    {
        SimpleNotification {
            title: self.title,
            text: self.text,
            app_logo: self.app_logo,
            hero_image,
            app_id: self.app_id,
        }
    }

    /// Set the identifier of the application the notification is sent as.
    pub fn set_app_id(self, app_id: String) -> (r: SimpleNotification)
        ensures
            r@.title == self@.title,
            r@.text == self@.text,
            r@.app_logo == self@.app_logo,
            r@.hero_image == self@.hero_image,
            r@.app_id == app_id@,
    {
        SimpleNotification {
            title: self.title,
            text: self.text,
            app_logo: self.app_logo,
            hero_image: self.hero_image,
            app_id,
        }
    }
}

} // verus!
