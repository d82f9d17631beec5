//! File picking button state: waiting for the platform picker and parsing the picked
//! file into text.

use vstd::prelude::*;
use crate::text::{chars_of, ends_with, has_suffix};

verus! {

#[verifier::external_type_specification]
#[verifier::external_body]
pub struct ExCornerRadius(egui::CornerRadius);

/// Type of button.
pub enum FilePickContentType {
    Button,
    ItemButton(egui::CornerRadius),
    Tab,
}

/// How a picked file is handled.
#[derive(PartialEq, Eq, Structural, Clone, Copy)]
pub enum FileParse {
    /// The platform picker answers later.
    Wait,
    /// Nothing is done with the path.
    Skip,
    /// The path is handed over as it is, without parsing.
    Handover,
    /// A GIF image: nothing is read from it.
    Gif,
    /// A JPEG or PNG image: nothing is read from it.
    Image,
    /// Read as plain text.
    Text,
}

/// Button to pick file and parse its data into text.
pub struct FilePickContent {
    /// Content type.
    pub content_type: FilePickContentType,
    /// Flag to check if button is active.
    pub active: bool,
    /// Flag to check if file is picking.
    pub file_picking: bool,
    /// Flag to parse file content after pick.
    pub parse_file: bool,
    /// Flag to check if file is parsing.
    pub file_parsing: bool,
    /// File parsing result.
    pub file_parsing_result: Option<String>,
}

/// Kind of a picked file by the end of its path.
pub open spec fn file_kind(path: Seq<char>) -> FileParse {
    if has_suffix(path, ".gif"@) {
        FileParse::Gif
    } else if has_suffix(path, ".jpeg"@) || has_suffix(path, ".jpg"@) || has_suffix(
        path,
        ".png"@,
    ) {
        FileParse::Image
    } else {
        FileParse::Text
    }
}

impl FilePickContent {
    /// Create new content from provided type: inactive, parsing picked files.
    pub fn new(content_type: FilePickContentType) -> (r: Self)
        ensures
            r.content_type == content_type,
            !r.active,
            !r.file_picking,
            r.parse_file,
            !r.file_parsing,
            r.file_parsing_result is None,
    {
        FilePickContent {
            content_type,
            active: false,
            file_picking: false,
            parse_file: true,
            file_parsing: false,
            file_parsing_result: None,
        }
    }

    /// Do not parse picked files.
    pub fn no_parse(self) -> (r: Self)
        ensures
            r == (FilePickContent { parse_file: false, ..self }),
    {
        FilePickContent { parse_file: false, ..self }
    }

    /// Enable or disable the button.
    pub fn set_active(&mut self, active: bool)
        ensures
            *final(self) == (FilePickContent { active, ..*old(self) }),
    {
        self.active = active;
    }

    /// Handle picked file path: an empty path means the picker answers later; without
    /// parsing nothing is done; otherwise parsing starts, by the kind of file.
    pub fn on_file_pick(&mut self, path: &str) -> (r: FileParse)
        ensures
            if path@.len() == 0 {
                &&& r == FileParse::Wait
                &&& *final(self) == (FilePickContent { file_picking: true, ..*old(self) })
            } else if !old(self).parse_file {
                &&& r == FileParse::Skip
                &&& *final(self) == *old(self)
            } else {
                &&& r == file_kind(path@)
                &&& *final(self) == (FilePickContent { file_parsing: true, ..*old(self) })
            },
    {
        if path.is_empty() {
            self.file_picking = true;
            return FileParse::Wait;
        }
        if !self.parse_file {
            return FileParse::Skip;
        }
        self.file_parsing = true;
        let cs = chars_of(path);
        let gif = chars_of(".gif");
        let jpeg = chars_of(".jpeg");
        let jpg = chars_of(".jpg");
        let png = chars_of(".png");
        if ends_with(cs.as_slice(), gif.as_slice()) {
            FileParse::Gif
        } else if ends_with(cs.as_slice(), jpeg.as_slice()) || ends_with(
            cs.as_slice(),
            jpg.as_slice(),
        ) || ends_with(cs.as_slice(), png.as_slice()) {
            FileParse::Image
        } else {
            FileParse::Text
        }
    }

    /// A file was picked with the button: without parsing its path is handed over,
    /// otherwise it is handled as a picked file.
    pub fn on_button_pick(&mut self, path: &str) -> (r: FileParse)
        ensures
            if !old(self).parse_file {
                &&& r == FileParse::Handover
                &&& *final(self) == *old(self)
            } else if path@.len() == 0 {
                &&& r == FileParse::Wait
                &&& *final(self) == (FilePickContent { file_picking: true, ..*old(self) })
            } else {
                &&& r == file_kind(path@)
                &&& *final(self) == (FilePickContent { file_parsing: true, ..*old(self) })
            },
    {
        if !self.parse_file {
            return FileParse::Handover;
        }
        self.on_file_pick(path)
    }

    /// Answer of the platform picker while waiting for it: no answer keeps waiting; an
    /// answer ends the wait, and a picked path is handled as a picked file.
    pub fn on_picker_answer(&mut self, path: Option<String>) -> (r: FileParse)
        ensures
            match path {
                None => r == FileParse::Wait && *final(self) == *old(self),
                Some(p) => if p@.len() == 0 {
                    &&& r == FileParse::Skip
                    &&& *final(self) == (FilePickContent { file_picking: false, ..*old(self) })
                } else if !old(self).parse_file {
                    &&& r == FileParse::Skip
                    &&& *final(self) == (FilePickContent { file_picking: false, ..*old(self) })
                } else {
                    &&& r == file_kind(p@)
                    &&& *final(self) == (FilePickContent {
                        file_picking: false,
                        file_parsing: true,
                        ..*old(self)
                    })
                },
            },
    {
        match path {
            None => FileParse::Wait,
            Some(p) => {
                self.file_picking = false;
                if p.as_str().is_empty() {
                    FileParse::Skip
                } else {
                    self.on_file_pick(p.as_str())
                }
            },
        }
    }

    /// Text read from a picked file, empty when it could not be read.
    pub fn on_text_read(&mut self, text: Option<String>)
        ensures
            final(self).file_parsing_result is Some,
            final(self).file_parsing_result->0@ == (match text {
                Some(t) => t@,
                None => Seq::<char>::empty(),
            }),
            (FilePickContent { file_parsing_result: None, ..*final(self) }) == (FilePickContent {
                file_parsing_result: None,
                ..*old(self)
            }),
    {
        let t = match text {
            Some(t) => t,
            None => String::new(),
        };
        self.file_parsing_result = Some(t);
    }

    /// Take the parsed text once it is there: parsing then ends.
    pub fn take_result(&mut self) -> (r: Option<String>)
        ensures
            r == old(self).file_parsing_result,
            match r {
                Some(_) => *final(self) == (FilePickContent {
                    file_parsing_result: None,
                    file_parsing: false,
                    ..*old(self)
                }),
                None => *final(self) == *old(self),
            },
    {
        match self.file_parsing_result.take() {
            Some(t) => {
                self.file_parsing = false;
                Some(t)
            },
            None => None,
        }
    }
}

} // verus!
