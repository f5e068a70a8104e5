use wot_serve::{
    first_word_of, instance_name, is_whitespace, Endpoint, Form, FormOperation, MethodRouter,
    Servient, ServientError, SocketAddress, Thing, ThingForm, ThingType, Verb, WELL_KNOWN_PATH,
};

fn serve(thing: Thing) -> Servient {
    thing.build_servient(String::from("{\"title\":\"test\"}"))
}

#[test]
fn build_servient() {
    let servient = serve(
        Servient::builder("test")
            .form(
                ThingForm::new("/ref")
                    .http_get(1)
                    .op(FormOperation::ReadAllProperties),
            )
            .form(
                ThingForm::new("/ref2")
                    .http_get(2)
                    .op(FormOperation::ReadAllProperties),
            )
            .build()
            .unwrap(),
    );
    assert_eq!(servient.router.len(), 3);
    assert_eq!(servient.router.dispatch_request("/ref", Verb::Get), Some(Endpoint::Handler(1)));
    assert_eq!(servient.router.dispatch_request("/ref2", Verb::Get), Some(Endpoint::Handler(2)));
    assert_eq!(servient.router.dispatch_request("/ref", Verb::Post), None);
    assert_eq!(
        servient.router.dispatch_request(WELL_KNOWN_PATH, Verb::Get),
        Some(Endpoint::Description)
    );
}

#[test]
fn build_servient_property() {
    let servient = serve(
        Servient::builder("test")
            .property(
                "hello",
                vec![ThingForm::new("/hello")
                    .http_get(1)
                    .http_put(2)
                    .op(FormOperation::ReadProperty)
                    .op(FormOperation::WriteProperty)],
            )
            .build()
            .unwrap(),
    );
    assert_eq!(servient.router.len(), 2);
    assert_eq!(servient.router.dispatch_request("/hello", Verb::Get), Some(Endpoint::Handler(1)));
    assert_eq!(servient.router.dispatch_request("/hello", Verb::Put), Some(Endpoint::Handler(2)));
    assert_eq!(servient.router.dispatch_request("/hello", Verb::Delete), None);
}

#[test]
fn build_servient_action() {
    let servient = serve(
        Servient::builder("test")
            .action("hello", vec![ThingForm::new("/say_hello").http_post(1)])
            .action("update", vec![ThingForm::new("/update_hello").http_patch(2)])
            .action("delete", vec![ThingForm::new("/delete_hello").http_delete(3)])
            .build()
            .unwrap(),
    );
    assert_eq!(servient.router.len(), 4);
    assert_eq!(servient.router.dispatch_request("/say_hello", Verb::Post), Some(Endpoint::Handler(1)));
    assert_eq!(servient.router.dispatch_request("/update_hello", Verb::Patch), Some(Endpoint::Handler(2)));
    assert_eq!(servient.router.dispatch_request("/delete_hello", Verb::Delete), Some(Endpoint::Handler(3)));
    assert_eq!(servient.router.dispatch_request("/say_hello", Verb::Get), None);
}

#[test]
fn route_count_is_forms_plus_discovery() {
    let servient = serve(
        Servient::builder("lamp")
            .form(ThingForm::new("/all").http_get(1))
            .property("on", vec![ThingForm::new("/on").http_get(2), ThingForm::new("/on").http_put(3)])
            .action("toggle", vec![ThingForm::new("/toggle").http_post(4)])
            .event("overheat", vec![ThingForm::new("/overheat")])
            .build()
            .unwrap(),
    );
    assert_eq!(servient.router.len(), 6);
    assert_eq!(servient.document, "{\"title\":\"test\"}");
    assert_eq!(
        servient.router.dispatch_request(WELL_KNOWN_PATH, Verb::Get),
        Some(Endpoint::Description)
    );
}

#[test]
fn empty_thing_has_only_discovery_route() {
    let servient = serve(Servient::builder("bare").build().unwrap());
    assert_eq!(servient.router.len(), 1);
    assert_eq!(
        servient.router.dispatch_request(WELL_KNOWN_PATH, Verb::Get),
        Some(Endpoint::Description)
    );
    assert_eq!(servient.router.dispatch_request(WELL_KNOWN_PATH, Verb::Post), None);
}

#[test]
fn discovery_path_shadows_forms() {
    let servient = serve(
        Servient::builder("test")
            .form(ThingForm::new("/.well-known/wot").http_get(1).http_post(2))
            .build()
            .unwrap(),
    );
    assert_eq!(
        servient.router.dispatch_request(WELL_KNOWN_PATH, Verb::Get),
        Some(Endpoint::Description)
    );
    assert_eq!(servient.router.dispatch_request(WELL_KNOWN_PATH, Verb::Post), None);
}

#[test]
fn same_thing_built_twice_routes_alike() {
    let make = || {
        Servient::builder("My Sensor")
            .property("a", vec![ThingForm::new("/a").http_get(1)])
            .action("b", vec![ThingForm::new("/b").http_post(2)])
            .build()
            .unwrap()
    };
    let s1 = serve(make());
    let s2 = serve(make());
    for path in ["/a", "/b", "/c", WELL_KNOWN_PATH] {
        for verb in [Verb::Get, Verb::Put, Verb::Post, Verb::Patch, Verb::Delete] {
            assert_eq!(s1.router.dispatch_request(path, verb), s2.router.dispatch_request(path, verb));
        }
    }
    assert_ne!(s1.name, s2.name);
}

#[test]
fn get_then_post_keeps_both() {
    let servient = serve(
        Servient::builder("t")
            .form(ThingForm::new("/x").http_get(1).http_post(2))
            .build()
            .unwrap(),
    );
    assert_eq!(servient.router.dispatch_request("/x", Verb::Get), Some(Endpoint::Handler(1)));
    assert_eq!(servient.router.dispatch_request("/x", Verb::Post), Some(Endpoint::Handler(2)));
}

#[test]
fn get_twice_keeps_second() {
    let form = ThingForm::new("/x").http_get(1).http_get(2);
    assert_eq!(form.other.method_router.get, Some(Endpoint::Handler(2)));
    let servient = serve(Servient::builder("t").form(form).build().unwrap());
    assert_eq!(servient.router.dispatch_request("/x", Verb::Get), Some(Endpoint::Handler(2)));
}

#[test]
fn forms_sharing_href_with_different_verbs() {
    let servient = serve(
        Servient::builder("t")
            .property("p", vec![ThingForm::new("/s").http_get(1)])
            .action("a", vec![ThingForm::new("/s").http_post(2)])
            .build()
            .unwrap(),
    );
    assert_eq!(servient.router.dispatch_request("/s", Verb::Get), Some(Endpoint::Handler(1)));
    assert_eq!(servient.router.dispatch_request("/s", Verb::Post), Some(Endpoint::Handler(2)));
}

#[test]
fn forms_sharing_href_and_verb_later_wins() {
    // Events are registered after properties, whatever the order of the calls.
    let servient = serve(
        Servient::builder("t")
            .event("e", vec![ThingForm::new("/s").http_get(3)])
            .property("p", vec![ThingForm::new("/s").http_get(1)])
            .form(ThingForm::new("/s").http_get(0))
            .build()
            .unwrap(),
    );
    assert_eq!(servient.router.dispatch_request("/s", Verb::Get), Some(Endpoint::Handler(3)));
    let servient = serve(
        Servient::builder("t")
            .property("p", vec![ThingForm::new("/s").http_get(1), ThingForm::new("/s").http_get(2)])
            .build()
            .unwrap(),
    );
    assert_eq!(servient.router.dispatch_request("/s", Verb::Get), Some(Endpoint::Handler(2)));
}

#[test]
fn name_from_title_and_token() {
    assert_eq!(instance_name("My Sensor", "0123abcd"), "my0123abcd");
    assert_eq!(instance_name("  LAMP  two", "ff"), "lampff");
    assert_eq!(instance_name(" \t\n ", "abc"), "abc");
    assert_eq!(instance_name("", "abc"), "abc");
}

#[test]
fn built_name_has_fresh_token() {
    let servient = serve(Servient::builder("My Sensor").build().unwrap());
    assert!(servient.name.starts_with("my"));
    assert_eq!(servient.name.len(), 2 + 32);
    assert!(servient.name[2..].chars().all(|c| c.is_ascii_digit() || ('a'..='f').contains(&c)));
    let blank = serve(Servient::builder("   ").build().unwrap());
    assert_eq!(blank.name.len(), 32);
}

#[test]
fn first_word_and_whitespace() {
    assert_eq!(first_word_of("  hello world"), "hello");
    assert_eq!(first_word_of("one"), "one");
    assert_eq!(first_word_of("\u{3000}"), "");
    assert!(is_whitespace('\u{a0}'));
    assert!(is_whitespace('\t'));
    assert!(!is_whitespace('x'));
    for c in ['\u{0}', ' ', '\u{85}', '\u{1680}', '\u{2007}', '\u{200b}', '\u{202f}', 'é'] {
        assert_eq!(is_whitespace(c), c.is_whitespace());
    }
}

#[test]
fn default_settings() {
    let servient = serve(Servient::builder("t").build().unwrap());
    assert_eq!(servient.http_addr, SocketAddress::V4(0, 8080));
    assert_eq!(servient.thing_type, ThingType::Thing);
}

#[test]
fn explicit_settings() {
    let servient = serve(
        Servient::builder("t")
            .http_bind(SocketAddress::V4(0x7f000001, 3000))
            .thing_type(ThingType::Directory)
            .build()
            .unwrap(),
    );
    assert_eq!(servient.http_addr, SocketAddress::V4(0x7f000001, 3000));
    assert_eq!(servient.thing_type, ThingType::Directory);
}

#[test]
fn temperature_scenario() {
    let servient = serve(
        Servient::builder("Thermometer")
            .property(
                "temperature",
                vec![ThingForm::new("/temperature").http_get(42).op(FormOperation::ReadProperty)],
            )
            .build()
            .unwrap(),
    );
    assert_eq!(
        servient.router.dispatch_request("/temperature", Verb::Get),
        Some(Endpoint::Handler(42))
    );
    let props = servient.thing.properties.as_ref().unwrap();
    assert_eq!(props.len(), 1);
    assert_eq!(props[0].name, "temperature");
    assert_eq!(
        servient.router.dispatch_request(WELL_KNOWN_PATH, Verb::Get),
        Some(Endpoint::Description)
    );
}

#[test]
fn duplicate_affordance_name_is_invalid() {
    let r = Servient::builder("t")
        .property("p", vec![ThingForm::new("/a")])
        .property("p", vec![ThingForm::new("/b")])
        .build();
    assert!(matches!(r, Err(ServientError::DescriptionInvalid)));
    let r = Servient::builder("t")
        .property("p", vec![ThingForm::new("/a")])
        .action("p", vec![ThingForm::new("/b")])
        .build();
    assert!(r.is_ok());
}

#[test]
fn form_from_method_router() {
    let m = MethodRouter::new().on(Verb::Delete, Endpoint::Handler(9));
    let f = Form::from(m);
    assert_eq!(f.method_router.handler_of(Verb::Delete), Some(Endpoint::Handler(9)));
    assert_eq!(f.method_router.handler_of(Verb::Get), None);
    assert_eq!(Form::default().method_router, MethodRouter::new());
}
