//! Notification into files: one file a day in a directory of the caller's
//! choosing. Writing the file is the caller's part.

use vstd::prelude::*;
use vstd::string::*;
use crate::text::{decimal, decimal_text, ends_with_char};
use crate::time::Date;

verus! {

/// The name of the notification file for the day `day`: year, month and
/// day as plain numbers with hyphens between.
pub open spec fn file_name_text(day: Date) -> Seq<char> {
    decimal_text(day.year as int) + "-"@ + decimal_text(day.month as int) + "-"@ + decimal_text(
        day.day as int,
    ) + ".txt"@
}

/// `directory` with a slash at its end, added where there was none.
pub open spec fn with_slash(directory: Seq<char>) -> Seq<char> {
    if directory.len() > 0 && directory.last() == '/' {
        directory
    } else {
        directory + "/"@
    }
}

/// Where notifications are written.
#[derive(Debug)]
pub struct FileNotifier {
    directory: String,
}

impl View for FileNotifier {
    type V = Seq<char>;

    closed spec fn view(&self) -> Seq<char> {
        self.directory@
    }
}

impl FileNotifier {
    /// A notifier that writes into `directory`, which is taken as it is
    /// written.
    pub fn new(directory: String) -> (notifier: Self)
        ensures
            notifier@ == directory@,
    {
        Self { directory }
    }

    /// The directory this notifier writes into.
    pub fn directory(&self) -> (directory: &str)
        ensures
            directory@ == self@,
    {
        self.directory.as_str()
    }

    /// `directory` with a slash at its end, as a path is built from it.
    pub fn normalized(directory: String) -> (with: String)
        ensures
            with@ == with_slash(directory@),
    {
        if ends_with_char(directory.as_str(), '/') {
            directory
        } else {
            directory.concat("/")
        }
    }

    /// The name of the notification file for the day `day`.
    pub fn file_name(day: Date) -> (name: String)
        ensures
            name@ == file_name_text(day),
    {
        let year = decimal(day.year as i64);
        let month = decimal(day.month as i64);
        let date = decimal(day.day as i64);
        year.concat("-").concat(month.as_str()).concat("-").concat(date.as_str()).concat(".txt")
    }

    /// The path of the notification file for the day `day`.
    pub fn file_path(&self, day: Date) -> (path: String)
        ensures
            path@ == self@ + file_name_text(day),
    {
        let name = Self::file_name(day);
        String::from_str(self.directory.as_str()).concat(name.as_str())
    }
}

} // verus!
