use serde::de::{Deserialize, Deserializer, Error as _, IgnoredAny, MapAccess, Visitor};
use serde::ser::{Serialize, SerializeStruct, Serializer};
use serde_either::de::Error;
use serde_either::{SingleOrVec, StringOrStruct, StringOrStructOrVec};
use serde_value::{Value, ValueDeserializer};
use std::fmt;

#[derive(Clone, PartialEq, Debug)]
struct Person {
    first_name: String,
    last_name: String,
}

impl Serialize for Person {
    fn serialize<Se: Serializer>(&self, serializer: Se) -> Result<Se::Ok, Se::Error> {
        let mut fields = serializer.serialize_struct("Person", 2)?;
        fields.serialize_field("first_name", &self.first_name)?;
        fields.serialize_field("last_name", &self.last_name)?;
        fields.end()
    }
}

struct PersonVisitor;

impl<'de> Visitor<'de> for PersonVisitor {
    type Value = Person;

    fn expecting(&self, f: &mut fmt::Formatter) -> fmt::Result {
        f.write_str("struct Person")
    }

    fn visit_map<A: MapAccess<'de>>(self, mut map: A) -> Result<Person, A::Error> {
        let mut first_name: Option<String> = None;
        let mut last_name: Option<String> = None;
        while let Some(key) = map.next_key::<String>()? {
            match key.as_str() {
                "first_name" => first_name = Some(map.next_value()?),
                "last_name" => last_name = Some(map.next_value()?),
                _ => {
                    map.next_value::<IgnoredAny>()?;
                }
            }
        }
        Ok(Person {
            first_name: first_name.ok_or_else(|| A::Error::missing_field("first_name"))?,
            last_name: last_name.ok_or_else(|| A::Error::missing_field("last_name"))?,
        })
    }
}

impl<'de> Deserialize<'de> for Person {
    fn deserialize<D: Deserializer<'de>>(deserializer: D) -> Result<Self, D::Error> {
        deserializer.deserialize_struct("Person", &["first_name", "last_name"], PersonVisitor)
    }
}

fn john() -> Person {
    Person {
        first_name: String::from("John"),
        last_name: String::from("Smith"),
    }
}

fn jane() -> Person {
    Person {
        first_name: String::from("Jane"),
        last_name: String::from("Doe"),
    }
}

type JsonWriter<'a> = &'a mut serde_json::Serializer<&'a mut Vec<u8>>;

fn write<T: Serialize>(payload: &T, writer: JsonWriter) -> serde_json::Result<()> {
    payload.serialize(writer)
}

fn read<'de, T: Deserialize<'de>>(value: Value) -> serde_json::Result<T> {
    T::deserialize(ValueDeserializer::<serde_json::Error>::new(value))
}

fn buffered(json: &[u8]) -> Value {
    serde_json::from_slice::<Value>(json).unwrap()
}

fn write_two_way<S: Serialize>(either: &StringOrStruct<S>) -> Vec<u8> {
    let mut out = Vec::new();
    let mut writer = serde_json::Serializer::new(&mut out);
    either.serialize(&mut writer, write::<String>, write::<S>).unwrap();
    out
}

fn write_three_way<S: Serialize, V: Serialize>(either: &StringOrStructOrVec<S, V>) -> Vec<u8> {
    let mut out = Vec::new();
    let mut writer = serde_json::Serializer::new(&mut out);
    either.serialize(&mut writer, write::<String>, write::<S>, write::<V>).unwrap();
    out
}

fn write_one_or_many<S: Serialize>(either: &SingleOrVec<S>) -> Vec<u8> {
    let mut out = Vec::new();
    let mut writer = serde_json::Serializer::new(&mut out);
    either.serialize(&mut writer, write::<S>, write::<Vec<S>>).unwrap();
    out
}

#[test]
fn string_or_struct_comes_back() {
    let sent = StringOrStruct::Struct(john());
    let json = write_two_way(&sent);
    assert_eq!(json, b"{\"first_name\":\"John\",\"last_name\":\"Smith\"}");
    let back = StringOrStruct::<Person>::deserialize(buffered(&json), read::<Person>);
    assert_eq!(back.unwrap(), sent);

    let sent = StringOrStruct::<Person>::String(String::from("Michael J. Smith \u{2713} \"q\""));
    let json = write_two_way(&sent);
    let back = StringOrStruct::<Person>::deserialize(buffered(&json), read::<Person>);
    assert_eq!(back.unwrap(), sent);

    let sent = StringOrStruct::Struct(vec![john(), jane()]);
    let json = write_two_way(&sent);
    let back = StringOrStruct::<Vec<Person>>::deserialize(buffered(&json), read::<Vec<Person>>);
    assert_eq!(back.unwrap(), sent);
}

#[test]
fn a_struct_that_is_written_as_a_string_comes_back_as_string() {
    let sent = StringOrStruct::<String>::Struct(String::from("plain"));
    let json = write_two_way(&sent);
    assert_eq!(json, b"\"plain\"");
    let back = StringOrStruct::<String>::deserialize(buffered(&json), read::<String>);
    assert_eq!(back.unwrap(), StringOrStruct::String(String::from("plain")));
}

#[test]
fn string_or_struct_or_vec_comes_back() {
    let values = vec![
        StringOrStructOrVec::<Person, Vec<Person>>::String(String::from("nobody")),
        StringOrStructOrVec::<Person, Vec<Person>>::Struct(jane()),
        StringOrStructOrVec::<Person, Vec<Person>>::Vec(vec![jane(), john()]),
        StringOrStructOrVec::<Person, Vec<Person>>::Vec(vec![]),
    ];
    for sent in values {
        let json = write_three_way(&sent);
        let back = StringOrStructOrVec::<Person, Vec<Person>>::deserialize(
            buffered(&json),
            read::<Person>,
            read::<Vec<Person>>,
        );
        assert_eq!(back.unwrap(), sent);
    }
}

#[test]
fn single_or_vec_comes_back() {
    let sent = SingleOrVec::Single(john());
    let json = write_one_or_many(&sent);
    let back =
        SingleOrVec::<Person>::deserialize(buffered(&json), read::<Person>, read::<Vec<Person>>);
    assert_eq!(back.unwrap(), sent);

    let sent = SingleOrVec::Vec(vec![john(), jane()]);
    let json = write_one_or_many(&sent);
    assert_eq!(buffered(&json), buffered(&serde_json::to_vec(&vec![john(), jane()]).unwrap()));
    let back =
        SingleOrVec::<Person>::deserialize(buffered(&json), read::<Person>, read::<Vec<Person>>);
    assert_eq!(back.unwrap(), sent);
}

#[test]
fn a_written_single_is_read_by_the_decoder_of_the_payload_alone() {
    let json = write_one_or_many(&SingleOrVec::Single(jane()));
    assert_eq!(json, serde_json::to_vec(&jane()).unwrap());
    let back: Person = serde_json::from_slice(&json).unwrap();
    assert_eq!(back, jane());
}

#[test]
fn a_single_that_is_written_as_a_sequence_comes_back_as_vec_or_not_at_all() {
    let sent = SingleOrVec::Single(vec![1u8, 2]);
    let json = write_one_or_many(&sent);
    let back =
        SingleOrVec::<Vec<u8>>::deserialize(buffered(&json), read::<Vec<u8>>, read::<Vec<Vec<u8>>>);
    assert!(back.is_err());
}

#[test]
fn a_payload_error_keeps_the_words_of_the_front_end() {
    let value = buffered(b"{\"first_name\":\"John\"}");
    let back = StringOrStruct::<Person>::deserialize(value, read::<Person>);
    match back {
        Err(Error::Payload(error)) => {
            assert_eq!(format!("{}", error), "missing field `last_name`")
        }
        other => panic!("{:?}", other),
    }
}
