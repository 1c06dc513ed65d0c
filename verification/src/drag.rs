//! Drag data on its way to and from the browser.
use vstd::prelude::*;
use vstd::string::*;
use crate::error::{browser_op, is_browser_op, WeldError};
use crate::input::{flags_of, lemma_flag_bits, modifiers, PointerState};
use crate::paths::{file_name_of, final_name, is_absolute, starts_at_root};
use crate::platform::Platform;
use crate::surface::{
    DragEventKind, DragFile, DragInput, DragOperations, DragPayload, EventModifiers,
};
use crate::text::joined;

verus! {

/// A file as the browser takes it: where it is, and the name shown for it.
#[derive(Debug)]
pub struct DraggedFile {
    pub path: String,
    pub display_name: String,
}

/// Drag data as the browser takes it. What is `None` is left unset.
#[derive(Debug)]
pub struct DragContents {
    pub files: Vec<DraggedFile>,
    pub link_url: Option<String>,
    pub link_title: Option<String>,
    pub fragment_text: Option<String>,
    pub fragment_html: Option<String>,
    pub fragment_base_url: Option<String>,
}

/// One step of a drag over the view.
#[derive(Debug)]
pub enum DragCommand {
    Enter { contents: DragContents, at: PointerState, allowed: DragOperations },
    Over { at: PointerState, allowed: DragOperations },
    Leave,
    Drop { at: PointerState },
}

/// The name shown for a file: the one it was given, else the final name of its
/// path, else the path.
pub open spec fn shown_name(file: DragFile, platform: Platform) -> Seq<char> {
    match file.display_name {
        Some(name) => name@,
        None => match final_name(file.path@, platform) {
            Some(name) => name,
            None => file.path@,
        },
    }
}

/// Whether `i` is the first file whose path is not absolute.
pub open spec fn is_first_relative(files: Seq<DragFile>, i: int, platform: Platform) -> bool {
    &&& 0 <= i < files.len()
    &&& !is_absolute(files[i].path@, platform)
    &&& forall|k: int| 0 <= k < i ==> is_absolute(#[trigger] files[k].path@, platform)
}

/// Whether `taken` are `files` as the browser takes them.
pub open spec fn are_taken(
    files: Seq<DragFile>,
    taken: Seq<DraggedFile>,
    platform: Platform,
) -> bool {
    &&& taken.len() == files.len()
    &&& forall|i: int| 0 <= i < files.len() ==> is_absolute((#[trigger] files[i]).path@, platform)
    &&& forall|i: int|
        0 <= i < files.len() ==> {
            &&& (#[trigger] taken[i]).path == files[i].path
            &&& taken[i].display_name@ == shown_name(files[i], platform)
        }
}

/// Drag data as the browser takes it. Every file has to have an absolute path.
/// `created` says whether the browser has an object to put the data in.
pub fn to_cef_payload(payload: DragPayload, created: bool, platform: Platform) -> (contents: Result<
    DragContents,
    WeldError,
>)
    ensures
        match contents {
            Ok(contents) => {
                &&& created
                &&& are_taken(payload.files@, contents.files@, platform)
                &&& contents.link_url == payload.link_url
                &&& contents.link_title == payload.link_title
                &&& contents.fragment_text == payload.fragment_text
                &&& contents.fragment_html == payload.fragment_html
                &&& contents.fragment_base_url == payload.fragment_base_url
            },
            Err(error) => if !created {
                is_browser_op(error, "cef_drag_data_create returned None"@)
            } else {
                exists|i: int| #[trigger]
                    is_first_relative(payload.files@, i, platform) && is_browser_op(
                        error,
                        "dragged file path must be absolute: "@ + payload.files@[i].path@,
                    )
            },
        },
{
    if !created {
        return Err(browser_op("cef_drag_data_create returned None"));
    }
    let ghost whole = payload.files@;
    let mut rest: Vec<DragFile> = payload.files;
    let mut files: Vec<DraggedFile> = Vec::new();
    while rest.len() > 0
        invariant
            created,
            whole == payload.files@,
            files@.len() + rest@.len() == whole.len(),
            rest@ == whole.skip(files@.len() as int),
            are_taken(whole.take(files@.len() as int), files@, platform),
        decreases rest.len(),
    {
        let ghost n = files@.len() as int;
        let ghost before = files@;
        assert(rest@[0] == whole[n]);
        let file: DragFile = rest.remove(0);
        assert(rest@ =~= whole.skip(n + 1));
        if !starts_at_root(file.path.as_str(), platform) {
            assert(is_first_relative(whole, n, platform)) by {
                assert forall|k: int| 0 <= k < n implies is_absolute(
                    #[trigger] whole[k].path@,
                    platform,
                ) by {
                    assert(whole.take(n)[k] == whole[k]);
                    assert(files@[k].path == whole.take(n)[k].path);
                }
            }
            return Err(
                WeldError::BrowserOp(
                    joined("dragged file path must be absolute: ", file.path.as_str()),
                ),
            );
        }
        let display_name: String = match file.display_name {
            Some(name) => name,
            None => match file_name_of(file.path.as_str(), platform) {
                Some(name) => name,
                None => file.path.clone(),
            },
        };
        files.push(DraggedFile { path: file.path, display_name });
        proof {
            let known = whole.take(n + 1);
            assert forall|i: int| 0 <= i < known.len() implies is_absolute(
                (#[trigger] known[i]).path@,
                platform,
            ) by {
                if i < n {
                    assert(whole.take(n)[i] == known[i]);
                } else {
                    assert(known[i] == whole[n]);
                }
            }
            assert forall|i: int| 0 <= i < known.len() implies {
                &&& (#[trigger] files@[i]).path == known[i].path
                &&& files@[i].display_name@ == shown_name(known[i], platform)
            } by {
                if i < n {
                    assert(whole.take(n)[i] == known[i]);
                    assert(files@[i] == before[i]);
                    assert(before[i].path == whole.take(n)[i].path);
                } else {
                    assert(known[i] == whole[n]);
                }
            }
            assert(are_taken(known, files@, platform));
        }
    }
    assert(whole.take(files@.len() as int) =~= whole);
    Ok(
        DragContents {
            files,
            link_url: payload.link_url,
            link_title: payload.link_title,
            fragment_text: payload.fragment_text,
            fragment_html: payload.fragment_html,
            fragment_base_url: payload.fragment_base_url,
        },
    )
}

/// Whether `command` is what a step of an OS drag comes to.
pub open spec fn drag_sent(
    event: DragInput,
    created: bool,
    platform: Platform,
    command: Result<DragCommand, WeldError>,
) -> bool {
    let at = PointerState { x: event.x, y: event.y, modifiers: flags_of(event.modifiers) as u32 };
    let allowed = event.allowed_operations;
    match event.kind {
        DragEventKind::Over => command == Ok::<DragCommand, WeldError>(
            DragCommand::Over { at, allowed },
        ),
        DragEventKind::Leave => command == Ok::<DragCommand, WeldError>(DragCommand::Leave),
        DragEventKind::Drop => command == Ok::<DragCommand, WeldError>(DragCommand::Drop { at }),
        DragEventKind::Enter => match event.payload {
            None => command matches Err(error) && is_browser_op(
                error,
                "DragInput::Enter requires a DragPayload"@,
            ),
            Some(payload) => match command {
                Ok(command) => {
                    &&& created
                    &&& command matches DragCommand::Enter {
                        contents,
                        at: place,
                        allowed: operations,
                    } && place == at && operations == allowed && are_taken(
                        payload.files@,
                        contents.files@,
                        platform,
                    ) && contents.link_url == payload.link_url && contents.link_title
                        == payload.link_title && contents.fragment_text == payload.fragment_text
                        && contents.fragment_html == payload.fragment_html
                        && contents.fragment_base_url == payload.fragment_base_url
                },
                Err(error) => if !created {
                    is_browser_op(error, "cef_drag_data_create returned None"@)
                } else {
                    exists|i: int| #[trigger]
                        is_first_relative(payload.files@, i, platform) && is_browser_op(
                            error,
                            "dragged file path must be absolute: "@ + payload.files@[i].path@,
                        )
                },
            },
        },
    }
}

/// One step of an OS drag over the view. An entering drag has to carry data.
pub fn send_drag(event: DragInput, created: bool, platform: Platform) -> (command: Result<
    DragCommand,
    WeldError,
>)
    ensures
        drag_sent(event, created, platform, command),
{
    let at = PointerState { x: event.x, y: event.y, modifiers: modifiers(event.modifiers) };
    let allowed: DragOperations = event.allowed_operations;
    match event.kind {
        DragEventKind::Enter => match event.payload {
            None => Err(browser_op("DragInput::Enter requires a DragPayload")),
            Some(payload) => match to_cef_payload(payload, created, platform) {
                Ok(contents) => Ok(DragCommand::Enter { contents, at, allowed }),
                Err(error) => Err(error),
            },
        },
        DragEventKind::Over => Ok(DragCommand::Over { at, allowed }),
        DragEventKind::Leave => Ok(DragCommand::Leave),
        DragEventKind::Drop => Ok(DragCommand::Drop { at }),
    }
}

/// `value`, unless it is empty.
pub fn non_empty(value: String) -> (kept: Option<String>)
    ensures
        kept == (if value@.len() > 0 {
            Some(value)
        } else {
            None
        }),
{
    if value.as_str().unicode_len() > 0 {
        Some(value)
    } else {
        None
    }
}

/// Drag data as the browser hands it out. A path that could not be read is
/// `None`; text that is not set is empty.
#[derive(Debug)]
pub struct OfferedDrag {
    pub is_file: bool,
    pub paths: Vec<Option<String>>,
    pub is_link: bool,
    pub link_url: String,
    pub link_title: String,
    pub is_fragment: bool,
    pub fragment_text: String,
    pub fragment_html: String,
    pub fragment_base_url: String,
}

/// The files whose paths could be read, in order.
pub open spec fn readable(paths: Seq<Option<String>>) -> Seq<DragFile>
    decreases paths.len(),
{
    if paths.len() == 0 {
        Seq::empty()
    } else {
        match paths.last() {
            Some(path) => readable(paths.drop_last()).push(DragFile { path, display_name: None }),
            None => readable(paths.drop_last()),
        }
    }
}

/// `value` where it applies and is not empty.
pub open spec fn text_if(applies: bool, value: String) -> Option<String> {
    if applies && value@.len() > 0 {
        Some(value)
    } else {
        None
    }
}

/// The portable part of the drag data that the browser hands out.
pub fn payload_from_cef(offered: OfferedDrag) -> (payload: DragPayload)
    ensures
        payload.files@ == (if offered.is_file {
            readable(offered.paths@)
        } else {
            Seq::<DragFile>::empty()
        }),
        payload.link_url == text_if(offered.is_link, offered.link_url),
        payload.link_title == text_if(offered.is_link, offered.link_title),
        payload.fragment_text == text_if(offered.is_fragment, offered.fragment_text),
        payload.fragment_html == text_if(offered.is_fragment, offered.fragment_html),
        payload.fragment_base_url == text_if(offered.is_fragment, offered.fragment_base_url),
{
    let mut payload = DragPayload::default();
    if offered.is_file {
        let ghost whole = offered.paths@;
        let mut rest: Vec<Option<String>> = offered.paths;
        let mut files: Vec<DragFile> = Vec::new();
        let ghost mut n: int = 0;
        assert(files@ =~= readable(whole.take(0)));
        while rest.len() > 0
            invariant
                0 <= n <= whole.len(),
                rest@ == whole.skip(n),
                files@ == readable(whole.take(n)),
            decreases rest.len(),
        {
            assert(rest@[0] == whole[n]);
            let path: Option<String> = rest.remove(0);
            proof {
                assert(rest@ =~= whole.skip(n + 1));
                assert(whole.take(n + 1).drop_last() =~= whole.take(n));
                assert(whole.take(n + 1).last() == path);
            }
            match path {
                Some(path) => files.push(DragFile { path, display_name: None }),
                None => {},
            }
            proof {
                n = n + 1;
            }
        }
        assert(whole.take(n) =~= whole);
        payload.files = files;
    } else {
        assert(payload.files@ =~= Seq::<DragFile>::empty());
    }
    if offered.is_link {
        payload.link_url = non_empty(offered.link_url);
        payload.link_title = non_empty(offered.link_title);
    }
    if offered.is_fragment {
        payload.fragment_text = non_empty(offered.fragment_text);
        payload.fragment_html = non_empty(offered.fragment_html);
        payload.fragment_base_url = non_empty(offered.fragment_base_url);
    }
    payload
}

/// Drag data is handed over exactly where there is something to hold it and every
/// file is named by an absolute path. Files keep their order and their paths, and
/// are shown by the name they were given, or else by the last part of the path.
pub proof fn law_dragged_files_keep_their_names(
    payload: DragPayload,
    created: bool,
    platform: Platform,
    contents: Result<DragContents, WeldError>,
)
    requires
        call_ensures(to_cef_payload, (payload, created, platform), contents),
    ensures
        contents is Ok <==> created && forall|i: int|
            0 <= i < payload.files@.len() ==> is_absolute(
                (#[trigger] payload.files@[i]).path@,
                platform,
            ),
        contents matches Err(error) ==> error is BrowserOp,
        contents matches Ok(contents) ==> {
            &&& contents.files@.len() == payload.files@.len()
            &&& forall|i: int|
                0 <= i < payload.files@.len() ==> {
                    let (file, taken) = (payload.files@[i], #[trigger] contents.files@[i]);
                    &&& taken.path == file.path
                    &&& file.display_name matches Some(name) ==> taken.display_name@ == name@
                    &&& file.display_name is None ==> taken.display_name@ == (match final_name(
                        file.path@,
                        platform,
                    ) {
                        Some(name) => name,
                        None => file.path@,
                    })
                }
            &&& contents.link_url == payload.link_url
            &&& contents.link_title == payload.link_title
            &&& contents.fragment_text == payload.fragment_text
            &&& contents.fragment_html == payload.fragment_html
            &&& contents.fragment_base_url == payload.fragment_base_url
        },
{
    if let Err(error) = contents {
        if created {
            let i = choose|i: int| #[trigger]
                is_first_relative(payload.files@, i, platform) && is_browser_op(
                    error,
                    "dragged file path must be absolute: "@ + payload.files@[i].path@,
                );
            assert(!is_absolute(payload.files@[i].path@, platform));
        }
    }
}

/// A drag enters, moves, leaves and drops as the host says, where the host says and
/// with what it allows. Only one that enters needs data.
pub proof fn law_a_drag_does_what_the_host_says(
    event: DragInput,
    created: bool,
    platform: Platform,
    command: Result<DragCommand, WeldError>,
)
    requires
        call_ensures(send_drag, (event, created, platform), command),
    ensures
        event.kind == DragEventKind::Leave ==> command is Ok && command->Ok_0 is Leave,
        event.kind == DragEventKind::Over ==> (command matches Ok(
            DragCommand::Over { at, allowed },
        ) && at.x == event.x && at.y == event.y && allowed == event.allowed_operations),
        event.kind == DragEventKind::Drop ==> (command matches Ok(DragCommand::Drop { at }) && at.x
            == event.x && at.y == event.y),
        event.kind == DragEventKind::Enter ==> (command matches Ok(command)
            ==> event.payload is Some && (command matches DragCommand::Enter {
            contents,
            at,
            allowed,
        } && at.x == event.x && at.y == event.y && allowed == event.allowed_operations
            && contents.files@.len() == event.payload->0.files@.len() && (forall|i: int|
            0 <= i < contents.files@.len() ==> (#[trigger] contents.files@[i]).path
                == event.payload->0.files@[i].path) && contents.link_url
            == event.payload->0.link_url && contents.link_title == event.payload->0.link_title
            && contents.fragment_text == event.payload->0.fragment_text && contents.fragment_html
            == event.payload->0.fragment_html && contents.fragment_base_url
            == event.payload->0.fragment_base_url)),
        event.kind == DragEventKind::Enter && event.payload is None ==> (command matches Err(error)
            && error is BrowserOp),
        event.kind == DragEventKind::Enter && event.payload is Some ==> (command is Ok <==> created
            && forall|i: int|
            0 <= i < event.payload->0.files@.len() ==> is_absolute(
                (#[trigger] event.payload->0.files@[i]).path@,
                platform,
            )),
        command matches Ok(DragCommand::Over { at, .. }) ==> held(event.modifiers, at.modifiers),
        command matches Ok(DragCommand::Enter { at, .. }) ==> held(event.modifiers, at.modifiers),
        command matches Ok(DragCommand::Drop { at }) ==> held(event.modifiers, at.modifiers),
{
    lemma_flag_bits(event.modifiers, flags_of(event.modifiers) as u32);
    if event.kind == DragEventKind::Enter && event.payload is Some && created && command is Err {
        let files = event.payload->0.files@;
        let error = command->Err_0;
        let i = choose|i: int| #[trigger]
            is_first_relative(files, i, platform) && is_browser_op(
                error,
                "dragged file path must be absolute: "@ + files[i].path@,
            );
        assert(!is_absolute(files[i].path@, platform));
    }
}

/// Whether `flags` say which modifiers are down.
pub open spec fn held(m: EventModifiers, flags: u32) -> bool {
    &&& flags & 0x02 != 0 <==> m.shift
    &&& flags & 0x04 != 0 <==> m.ctrl
    &&& flags & 0x08 != 0 <==> m.alt
    &&& flags & 0x10 != 0 <==> m.left_mouse_button
    &&& flags & 0x20 != 0 <==> m.middle_mouse_button
    &&& flags & 0x40 != 0 <==> m.right_mouse_button
    &&& flags & 0x80 != 0 <==> m.meta
}

/// Of the files that a page drags, those that have a path are told, in order, and
/// the others are left out.
pub proof fn law_files_without_a_path_are_left_out(
    before: Seq<Option<String>>,
    path: String,
    after: Seq<Option<String>>,
)
    ensures
        readable(Seq::empty()).len() == 0,
        readable(before + seq![None] + after) == readable(before) + readable(after),
        readable(before + seq![Some(path)] + after) == readable(before) + seq![
            DragFile { path, display_name: None },
        ] + readable(after),
{
    reveal_with_fuel(readable, 2);
    let none = seq![None::<String>];
    let some = seq![Some(path)];
    lemma_readable_joins(before + none, after);
    lemma_readable_joins(before, none);
    lemma_readable_joins(before + some, after);
    lemma_readable_joins(before, some);
    assert(none.drop_last() =~= Seq::empty());
    assert(some.drop_last() =~= Seq::empty());
    assert(readable(none) =~= Seq::<DragFile>::empty());
    assert(readable(some) =~= seq![DragFile { path, display_name: None }]);
    assert(readable(before) + readable(none) =~= readable(before));
}

proof fn lemma_readable_joins(left: Seq<Option<String>>, right: Seq<Option<String>>)
    ensures
        readable(left + right) == readable(left) + readable(right),
    decreases right.len(),
{
    if right.len() == 0 {
        assert(left + right =~= left);
        assert(readable(left) + readable(right) =~= readable(left));
    } else {
        lemma_readable_joins(left, right.drop_last());
        assert((left + right).drop_last() =~= left + right.drop_last());
        assert(readable(left + right) =~= readable(left) + readable(right));
    }
}

/// What a page drags is told for what it is: files where it drags files, a link
/// where it drags a link, text where it drags text, and no part that is empty.
pub proof fn law_a_page_drags_what_it_offers(offered: OfferedDrag, payload: DragPayload)
    requires
        call_ensures(payload_from_cef, (offered,), payload),
    ensures
        offered.is_file ==> payload.files@ == readable(offered.paths@),
        !offered.is_file ==> payload.files@.len() == 0,
        payload.link_url == (if offered.is_link && offered.link_url@.len() > 0 {
            Some(offered.link_url)
        } else {
            None
        }),
        payload.link_title == (if offered.is_link && offered.link_title@.len() > 0 {
            Some(offered.link_title)
        } else {
            None
        }),
        payload.fragment_text == (if offered.is_fragment && offered.fragment_text@.len() > 0 {
            Some(offered.fragment_text)
        } else {
            None
        }),
        payload.fragment_html == (if offered.is_fragment && offered.fragment_html@.len() > 0 {
            Some(offered.fragment_html)
        } else {
            None
        }),
        payload.fragment_base_url == (if offered.is_fragment && offered.fragment_base_url@.len()
            > 0 {
            Some(offered.fragment_base_url)
        } else {
            None
        }),
{
}

} // verus!
