use ultralight_rs::app::App;
use ultralight_rs::call::NativeCall;
use ultralight_rs::callback::{CallbackRegistry, DataChannel, EventKind, EventShape, Registration};
use ultralight_rs::handle::{Error, Handle, ResourceKind};
use ultralight_rs::helpers_internal::{
    unpack_closure_view_cb, unpack_window_close_cb, unpack_window_resize_cb,
};
use ultralight_rs::internal::{
    unpack_closure_hook_cb, unpack_closure_view_0, unpack_closure_view_1,
    unpack_closure_view_create_child, unpack_closure_view_cursor,
    unpack_closure_view_fail_loading, unpack_closure_view_history,
};
use ultralight_rs::ownership::Wrapper;
use ultralight_rs::string::ULString;
use ultralight_rs::utf16::encode;
use ultralight_rs::view::{IntRect, View};
use ultralight_rs::window::{Cursor, Window};

/// An engine that keeps what a real one keeps: one word per callback slot,
/// and the code units of its strings.
struct SlotEngine {
    next: usize,
    slots: Vec<(Handle, EventKind, usize)>,
    strings: Vec<(Handle, Vec<u16>)>,
}

impl SlotEngine {
    fn new() -> Self {
        SlotEngine { next: 0x1000, slots: Vec::new(), strings: Vec::new() }
    }

    fn create(&mut self) -> Handle {
        self.next += 0x10;
        Handle::new(self.next)
    }

    fn create_string(&mut self, text: &str) -> Handle {
        let handle = self.create();
        self.strings.push((handle, encode(text)));
        handle
    }

    fn data(&self, string: Handle) -> &[u16] {
        &self.strings.iter().find(|(handle, _)| *handle == string).unwrap().1
    }

    fn perform(&mut self, call: NativeCall) {
        if let NativeCall::SetCallback { object, event, data } = call {
            self.slots.retain(|(o, e, _)| !(*o == object && *e == event));
            self.slots.push((object, event, data));
        }
    }

    /// The word with which the engine would call, should the event happen.
    fn fire(&self, object: Handle, event: EventKind) -> Option<usize> {
        self.slots.iter().find(|(o, e, _)| *o == object && *e == event).map(|(_, _, data)| *data)
    }
}

#[test]
fn a_resize_is_delivered_once_and_verbatim() {
    let mut engine = SlotEngine::new();
    let mut registry = CallbackRegistry::new();
    let window = Window::new(engine.create()).unwrap();
    let mut seen: Vec<(u32, u32)> = Vec::new();
    {
        let mut on_resize = |width: u32, height: u32| seen.push((width, height));
        let registration = window.set_resize_callback(1);
        assert_eq!(registry.register(registration), None);
        engine.perform(registration.call());

        let word = engine.fire(window.as_handle(), EventKind::Resize).unwrap();
        assert_eq!(word, 1);
        assert!(registry.is_live(window.as_handle(), EventKind::Resize, word));
        unpack_window_resize_cb(&mut on_resize, 800, 600);
    }
    assert_eq!(seen, vec![(800, 600)]);
}

#[test]
fn dom_ready_delivers_the_frame_and_the_address() {
    let mut engine = SlotEngine::new();
    let mut registry = CallbackRegistry::new();
    let view = View::new(engine.create()).unwrap();
    let registration = view.on_dom_ready(7);
    registry.register(registration);
    engine.perform(registration.call());

    let url = engine.create_string("https://example.org/index.html");
    let mut seen: Vec<(Wrapper, u64, bool, String)> = Vec::new();
    {
        let mut on_ready = |caller: View, frame_id: u64, is_main_frame: bool, address: ULString| {
            let text = address.to_string(engine.data(address.as_handle())).unwrap();
            assert!(!address.is_owning());
            seen.push((caller.describe(), frame_id, is_main_frame, text));
        };
        assert_eq!(engine.fire(view.as_handle(), EventKind::DomReady), Some(7));
        unpack_closure_view_0(&mut on_ready, view.as_handle(), 0, true, url);
    }
    assert_eq!(
        seen,
        vec![(
            Wrapper { kind: ResourceKind::View, handle: view.as_handle(), owns: false },
            0,
            true,
            "https://example.org/index.html".to_string(),
        )]
    );
}

#[test]
fn registering_again_replaces_the_closure() {
    let mut engine = SlotEngine::new();
    let mut registry = CallbackRegistry::new();
    let window = Window::new(engine.create()).unwrap();
    let mut first_calls = 0;
    let mut second_calls = 0;
    {
        let mut first = || first_calls += 1;
        let mut second = || second_calls += 1;

        let registration = window.set_close_callback(1);
        assert_eq!(registry.register(registration), None);
        engine.perform(registration.call());

        let registration = window.set_close_callback(2);
        assert_eq!(registry.register(registration), Some(1));
        engine.perform(registration.call());

        assert!(!registry.is_live(window.as_handle(), EventKind::Close, 1));
        assert!(registry.is_live(window.as_handle(), EventKind::Close, 2));
        match engine.fire(window.as_handle(), EventKind::Close) {
            Some(1) => unpack_window_close_cb(&mut first),
            Some(2) => unpack_window_close_cb(&mut second),
            other => panic!("no closure for {:?}", other),
        }
    }
    assert_eq!(first_calls, 0);
    assert_eq!(second_calls, 1);
}

#[test]
fn a_registration_touches_no_other_slot() {
    let mut registry = CallbackRegistry::new();
    let window = Window::from_borrowed(Handle::new(0x100));
    let other = Window::from_borrowed(Handle::new(0x200));
    registry.register(window.set_resize_callback(1));
    registry.register(window.set_close_callback(2));
    registry.register(other.set_resize_callback(3));
    registry.register(window.set_resize_callback(4));
    assert_eq!(registry.lookup(Handle::new(0x100), EventKind::Resize), Some(4));
    assert_eq!(registry.lookup(Handle::new(0x100), EventKind::Close), Some(2));
    assert_eq!(registry.lookup(Handle::new(0x200), EventKind::Resize), Some(3));
    assert_eq!(registry.lookup(Handle::new(0x200), EventKind::Close), None);
    assert_eq!(registry.lookup(Handle::new(0x300), EventKind::Resize), None);
}

#[test]
fn a_destroyed_object_leaves_no_registration() {
    let mut registry = CallbackRegistry::new();
    let view = View::new(Handle::new(0x100)).unwrap();
    let window = Window::from_borrowed(Handle::new(0x200));
    registry.register(view.on_dom_ready(1));
    registry.register(window.set_close_callback(2));
    registry.register(view.on_change_title(3));

    let mut released = registry.forget_object(view.as_handle());
    released.sort();
    assert_eq!(released, vec![1, 3]);
    assert_eq!(registry.lookup(Handle::new(0x100), EventKind::DomReady), None);
    assert_eq!(registry.lookup(Handle::new(0x100), EventKind::ChangeTitle), None);
    assert_eq!(registry.lookup(Handle::new(0x200), EventKind::Close), Some(2));
    assert!(registry.forget_object(view.as_handle()).is_empty());
}

#[test]
fn each_registration_names_its_object_and_its_slot() {
    let raw = Handle::new(0x100);
    let view = View::from_borrowed(raw);
    let at = |event, data| Registration { object: raw, event, data };
    assert_eq!(view.on_finish_loading(1), at(EventKind::FinishLoading, 1));
    assert_eq!(view.on_dom_ready(2), at(EventKind::DomReady, 2));
    assert_eq!(view.on_begin_loading(3), at(EventKind::BeginLoading, 3));
    assert_eq!(view.on_change_title(4), at(EventKind::ChangeTitle, 4));
    assert_eq!(view.on_change_cursor(5), at(EventKind::ChangeCursor, 5));
    assert_eq!(view.on_change_url(6), at(EventKind::ChangeUrl, 6));
    assert_eq!(view.on_change_tooltip(7), at(EventKind::ChangeTooltip, 7));
    assert_eq!(view.on_window_ready(8), at(EventKind::WindowObjectReady, 8));
    assert_eq!(view.on_create_child_view(9), at(EventKind::CreateChildView, 9));
    assert_eq!(view.on_fail_loading(10), at(EventKind::FailLoading, 10));
    assert_eq!(view.on_update_history(11), at(EventKind::UpdateHistory, 11));
    assert_eq!(view.enable_default_logger(), at(EventKind::AddConsoleMessage, 0));

    let window = Window::from_borrowed(raw);
    assert_eq!(window.set_resize_callback(12), at(EventKind::Resize, 12));
    assert_eq!(window.set_close_callback(13), at(EventKind::Close, 13));
    let app = App::new(raw).unwrap();
    assert_eq!(app.set_update_callback(14), at(EventKind::Update, 14));
    assert_eq!(
        app.set_update_callback(14).call(),
        NativeCall::SetCallback { object: raw, event: EventKind::Update, data: 14 }
    );
}

#[test]
fn each_event_has_its_shape_and_its_owner() {
    let table = [
        (EventKind::Update, EventShape::Plain, ResourceKind::App),
        (EventKind::Resize, EventShape::Size, ResourceKind::Window),
        (EventKind::Close, EventShape::Plain, ResourceKind::Window),
        (EventKind::FinishLoading, EventShape::Frame, ResourceKind::View),
        (EventKind::DomReady, EventShape::Frame, ResourceKind::View),
        (EventKind::BeginLoading, EventShape::Frame, ResourceKind::View),
        (EventKind::WindowObjectReady, EventShape::Frame, ResourceKind::View),
        (EventKind::ChangeTitle, EventShape::Text, ResourceKind::View),
        (EventKind::ChangeUrl, EventShape::Text, ResourceKind::View),
        (EventKind::ChangeTooltip, EventShape::Text, ResourceKind::View),
        (EventKind::ChangeCursor, EventShape::Cursor, ResourceKind::View),
        (EventKind::CreateChildView, EventShape::CreateChild, ResourceKind::View),
        (EventKind::FailLoading, EventShape::FailLoading, ResourceKind::View),
        (EventKind::UpdateHistory, EventShape::History, ResourceKind::View),
        (EventKind::AddConsoleMessage, EventShape::ConsoleMessage, ResourceKind::View),
    ];
    for (event, shape, owner) in table {
        assert_eq!(event.shape(), shape);
        assert_eq!(event.owner(), owner);
        assert_eq!(shape.channel(), DataChannel::UserData);
    }
    assert_eq!(EventShape::Hook.channel(), DataChannel::ObjectPrivate);
}

#[test]
fn a_text_event_delivers_a_borrowed_string() {
    let mut seen: Vec<(Wrapper, Wrapper)> = Vec::new();
    {
        let mut on_title = |caller: View, title: ULString| {
            seen.push((caller.describe(), title.describe()));
        };
        unpack_closure_view_1(&mut on_title, Handle::new(0x100), Handle::new(0x200));
    }
    assert_eq!(
        seen,
        vec![(
            Wrapper { kind: ResourceKind::View, handle: Handle::new(0x100), owns: false },
            Wrapper { kind: ResourceKind::String, handle: Handle::new(0x200), owns: false },
        )]
    );
}

#[test]
fn a_history_event_delivers_the_view() {
    let mut seen: Vec<Wrapper> = Vec::new();
    {
        let mut on_history = |caller: View| seen.push(caller.describe());
        unpack_closure_view_history(&mut on_history, Handle::new(0x100));
    }
    assert_eq!(
        seen,
        vec![Wrapper { kind: ResourceKind::View, handle: Handle::new(0x100), owns: false }]
    );
}

#[test]
fn a_cursor_event_delivers_the_cursor_as_numbered() {
    let mut seen: Vec<(Handle, u32)> = Vec::new();
    {
        let mut on_cursor = |caller: View, cursor: Cursor| seen.push((caller.as_handle(), cursor.code));
        unpack_closure_view_cursor(&mut on_cursor, Handle::new(0x100), Cursor { code: 2 });
    }
    assert_eq!(seen, vec![(Handle::new(0x100), 2)]);
}

#[test]
fn a_failure_event_delivers_all_its_arguments() {
    let mut seen: Vec<(Handle, u64, bool, Handle, Handle, Handle, i32)> = Vec::new();
    {
        let mut on_fail = |caller: View,
                           frame_id: u64,
                           is_main_frame: bool,
                           url: ULString,
                           description: ULString,
                           error_domain: ULString,
                           error_code: i32| {
            assert!(!url.is_owning() && !description.is_owning() && !error_domain.is_owning());
            seen.push((
                caller.as_handle(),
                frame_id,
                is_main_frame,
                url.as_handle(),
                description.as_handle(),
                error_domain.as_handle(),
                error_code,
            ));
        };
        unpack_closure_view_fail_loading(
            &mut on_fail,
            Handle::new(0x100),
            3,
            false,
            Handle::new(0x200),
            Handle::new(0x300),
            Handle::new(0x400),
            -105,
        );
    }
    assert_eq!(
        seen,
        vec![(
            Handle::new(0x100),
            3,
            false,
            Handle::new(0x200),
            Handle::new(0x300),
            Handle::new(0x400),
            -105,
        )]
    );
}

#[test]
fn a_child_view_answers_with_its_handle_and_stays_with_the_caller() {
    let rect = IntRect { left: 10, top: 20, right: 650, bottom: 500 };
    let mut seen: Vec<(Handle, Handle, Handle, bool, IntRect)> = Vec::new();
    let (raw, child) = {
        let mut on_child = |caller: View, opener: ULString, target: ULString, popup: bool, r: IntRect| {
            seen.push((caller.as_handle(), opener.as_handle(), target.as_handle(), popup, r));
            View::new(Handle::new(0x900)).ok()
        };
        unpack_closure_view_create_child(
            &mut on_child,
            Handle::new(0x100),
            Handle::new(0x200),
            Handle::new(0x300),
            true,
            rect,
        )
    };
    assert_eq!(seen, vec![(Handle::new(0x100), Handle::new(0x200), Handle::new(0x300), true, rect)]);
    assert_eq!(raw, Handle::new(0x900));
    let child = child.unwrap();
    assert!(child.is_owning());
    assert_eq!(
        child.release(),
        Some(NativeCall::Destroy { kind: ResourceKind::View, handle: Handle::new(0x900) })
    );
}

#[test]
fn a_declined_child_view_answers_with_the_null_handle() {
    let rect = IntRect { left: 0, top: 0, right: 0, bottom: 0 };
    let mut decline = |_: View, _: ULString, _: ULString, _: bool, _: IntRect| -> Option<View> { None };
    let (raw, child) = unpack_closure_view_create_child(
        &mut decline,
        Handle::new(0x100),
        Handle::new(0x200),
        Handle::new(0x300),
        false,
        rect,
    );
    assert!(raw.is_null());
    assert!(child.is_none());
}

#[test]
fn a_script_hook_passes_its_arguments_and_its_answer_through() {
    let mut seen: Vec<(Handle, Handle, Handle, u64, Handle, Handle)> = Vec::new();
    let value = {
        let mut hook = |ctx: Handle,
                        function: Handle,
                        this_object: Handle,
                        argument_count: u64,
                        arguments: Handle,
                        exception: Handle| {
            seen.push((ctx, function, this_object, argument_count, arguments, exception));
            Handle::new(0x777)
        };
        unpack_closure_hook_cb(
            &mut hook,
            Handle::new(1),
            Handle::new(2),
            Handle::new(3),
            4,
            Handle::new(5),
            Handle::new(6),
        )
    };
    assert_eq!(value, Handle::new(0x777));
    assert_eq!(
        seen,
        vec![(Handle::new(1), Handle::new(2), Handle::new(3), 4, Handle::new(5), Handle::new(6))]
    );
}

#[test]
fn a_frame_event_can_deliver_the_address_as_text() {
    let mut seen: Vec<(Handle, u64, bool, String)> = Vec::new();
    {
        let mut on_frame = |caller: View, frame_id: u64, is_main_frame: bool, url: &str| {
            seen.push((caller.as_handle(), frame_id, is_main_frame, url.to_string()));
        };
        let units = encode("file:///caf\u{e9}.html");
        assert_eq!(unpack_closure_view_cb(&mut on_frame, Handle::new(0x100), 9, true, &units), Ok(()));
    }
    assert_eq!(seen, vec![(Handle::new(0x100), 9, true, "file:///caf\u{e9}.html".to_string())]);
}

#[test]
fn an_ill_formed_address_is_an_error_and_no_call() {
    let mut calls = 0;
    {
        let mut on_frame = |_: View, _: u64, _: bool, _: &str| calls += 1;
        assert_eq!(
            unpack_closure_view_cb(&mut on_frame, Handle::new(0x100), 9, true, &[0x61, 0xDC00]),
            Err(Error::Encoding)
        );
    }
    assert_eq!(calls, 0);
}

#[test]
fn each_event_calls_its_closure_once() {
    let mut calls = 0;
    {
        let mut on_update = || calls += 1;
        unpack_window_close_cb(&mut on_update);
        unpack_window_close_cb(&mut on_update);
        unpack_window_close_cb(&mut on_update);
    }
    assert_eq!(calls, 3);
}
