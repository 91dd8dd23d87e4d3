use annot_writer::action::Action;
use annot_writer::annotations::Annotation;
use annot_writer::annotations::Annotations;
use annot_writer::border::BorderStyle;
use annot_writer::filespec::FileSpec;
use annot_writer::tokens::ActionType;
use annot_writer::tokens::BorderType;
use annot_writer::value::Key;
use annot_writer::value::Name;
use annot_writer::value::Pair;
use annot_writer::value::Real;
use annot_writer::value::Ref;
use annot_writer::value::Str;
use annot_writer::value::TextStr;
use annot_writer::value::Value;

fn real_of(x: f32) -> Real {
    Real { bits: x.to_bits() }
}

fn value_eq(a: &Value, b: &Value) -> bool {
    match (a, b) {
        (Value::Bool(x), Value::Bool(y)) => x == y,
        (Value::Int(x), Value::Int(y)) => x == y,
        (Value::Real(x), Value::Real(y)) => x == y,
        (Value::Name(x), Value::Name(y)) => x.0 == y.0,
        (Value::Str(x), Value::Str(y)) => x.0 == y.0,
        (Value::Text(x), Value::Text(y)) => x.0 == y.0,
        (Value::Date(x), Value::Date(y)) => x == y,
        (Value::Ref(x), Value::Ref(y)) => x == y,
        (Value::Array(x), Value::Array(y)) => {
            x.len() == y.len() && x.iter().zip(y.iter()).all(|(u, v)| value_eq(u, v))
        }
        (Value::Dict(x), Value::Dict(y)) => {
            x.len() == y.len()
                && x.iter().zip(y.iter()).all(|(u, v)| u.key == v.key && value_eq(&u.value, &v.value))
        }
        _ => false,
    }
}

fn expect(pairs: &[Pair], index: usize, key: Key, value: &Value) {
    assert_eq!(pairs[index].key, key);
    assert!(value_eq(&pairs[index].value, value));
}

#[test]
fn filespec_writes_each_entry_in_call_order() {
    let mut file_spec = FileSpec::new();
    file_spec.file_system(Name("URL".to_string()));
    file_spec.file(Str(b"dir/data.bin".to_vec()));
    file_spec.unic_file(TextStr("dir/data.bin".to_string()));
    file_spec.volatile(true);
    file_spec.description(TextStr("the data".to_string()));
    let pairs = file_spec.pairs();
    assert_eq!(pairs.len(), 6);
    expect(pairs, 0, Key::Type, &Value::Name(Name("Filespec".to_string())));
    expect(pairs, 1, Key::FS, &Value::Name(Name("URL".to_string())));
    expect(pairs, 2, Key::F, &Value::Str(Str(b"dir/data.bin".to_vec())));
    expect(pairs, 3, Key::UF, &Value::Text(TextStr("dir/data.bin".to_string())));
    expect(pairs, 4, Key::V, &Value::Bool(true));
    expect(pairs, 5, Key::Desc, &Value::Text(TextStr("the data".to_string())));
}

#[test]
fn border_style_writes_width_style_and_dashes() {
    let mut style = BorderStyle::new();
    style.width(real_of(2.0));
    style.style(BorderType::Dashed);
    style.dashes(vec![real_of(3.0), real_of(1.0)]);
    let pairs = style.pairs();
    assert_eq!(pairs.len(), 4);
    expect(pairs, 0, Key::Type, &Value::Name(Name("Border".to_string())));
    expect(pairs, 1, Key::W, &Value::Real(real_of(2.0)));
    expect(pairs, 2, Key::S, &Value::Name(Name("D".to_string())));
    expect(
        pairs,
        3,
        Key::D,
        &Value::Array(vec![Value::Real(real_of(3.0)), Value::Real(real_of(1.0))]),
    );
}

#[test]
fn annotation_takes_a_finished_border_style() {
    let mut style = BorderStyle::new();
    style.width(real_of(1.0));
    let mut annotation = Annotation::new();
    annotation.border_style(style);
    match annotation.lookup(Key::BS) {
        Some(Value::Dict(entries)) => {
            assert_eq!(entries.len(), 2);
            expect(entries, 0, Key::Type, &Value::Name(Name("Border".to_string())));
            expect(entries, 1, Key::W, &Value::Real(real_of(1.0)));
        }
        _ => panic!("the border style entry must be a dictionary"),
    }
}

#[test]
fn action_writes_each_entry_in_call_order() {
    let mut action = Action::new();
    action.action_type(ActionType::RemoteGoTo);
    action.dest_named(Name("chapter-2".to_string()));
    action.new_window(true);
    action.is_map(false);
    let pairs = action.pairs();
    assert_eq!(pairs.len(), 5);
    expect(pairs, 0, Key::Type, &Value::Name(Name("Action".to_string())));
    expect(pairs, 1, Key::S, &Value::Name(Name("GoToR".to_string())));
    expect(pairs, 2, Key::D, &Value::Name(Name("chapter-2".to_string())));
    expect(pairs, 3, Key::NewWindow, &Value::Bool(true));
    expect(pairs, 4, Key::IsMap, &Value::Bool(false));
}

#[test]
fn action_direct_destination_opens_with_the_page_reference() {
    let mut action = Action::new();
    action.dest_direct(Ref(5));
    match action.lookup(Key::D) {
        Some(value) => assert!(value_eq(value, &Value::Array(vec![Value::Ref(Ref(5))]))),
        None => panic!("the destination entry must be present"),
    }
}

#[test]
fn action_takes_a_finished_file_specification() {
    let mut file_spec = FileSpec::new();
    file_spec.file(Str(b"other.bin".to_vec()));
    let mut action = Action::new();
    action.action_type(ActionType::Launch);
    action.file(file_spec);
    match action.lookup(Key::F) {
        Some(Value::Dict(entries)) => {
            assert_eq!(entries.len(), 2);
            expect(entries, 0, Key::Type, &Value::Name(Name("Filespec".to_string())));
            expect(entries, 1, Key::F, &Value::Str(Str(b"other.bin".to_vec())));
        }
        _ => panic!("the file entry must be a dictionary"),
    }
}

#[test]
fn annotation_takes_a_finished_file_specification() {
    let mut file_spec = FileSpec::new();
    file_spec.file(Str(b"attached.bin".to_vec()));
    let mut annotation = Annotation::new();
    annotation.file(file_spec);
    match annotation.lookup(Key::FS) {
        Some(Value::Dict(entries)) => {
            assert_eq!(entries.len(), 2);
            expect(entries, 0, Key::Type, &Value::Name(Name("Filespec".to_string())));
            expect(entries, 1, Key::F, &Value::Str(Str(b"attached.bin".to_vec())));
        }
        _ => panic!("the file entry must be a dictionary"),
    }
}

#[test]
fn collection_preserves_push_order() {
    let mut collection = Annotations::new();

    let mut first = Annotation::new();
    first.name(TextStr("first".to_string()));
    collection.push(first);

    let mut second = Annotation::new();
    second.name(TextStr("second".to_string()));
    collection.push(second);

    let items = collection.items();
    assert_eq!(items.len(), 2);
    match (&items[0], &items[1]) {
        (Value::Dict(a), Value::Dict(b)) => {
            assert_eq!(a.len(), 2);
            expect(a, 0, Key::Type, &Value::Name(Name("Annot".to_string())));
            expect(a, 1, Key::NM, &Value::Text(TextStr("first".to_string())));
            assert_eq!(b.len(), 2);
            expect(b, 0, Key::Type, &Value::Name(Name("Annot".to_string())));
            expect(b, 1, Key::NM, &Value::Text(TextStr("second".to_string())));
        }
        _ => panic!("every element must be a dictionary"),
    }
}

#[test]
fn finishing_the_collection_yields_the_array() {
    let mut collection = Annotations::new();
    let annotation = Annotation::new();
    collection.push(annotation);
    match collection.finish() {
        Value::Array(items) => {
            assert_eq!(items.len(), 1);
            match &items[0] {
                Value::Dict(entries) => {
                    assert_eq!(entries.len(), 1);
                    expect(entries, 0, Key::Type, &Value::Name(Name("Annot".to_string())));
                }
                _ => panic!("the element must be a dictionary"),
            }
        }
        _ => panic!("the collection must finish as an array"),
    }
}
