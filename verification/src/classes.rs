//! The owned data model of the foreign type system, plus the view layer
//! over live foreign objects.

pub mod arg;
pub mod array;
pub mod assembly;
pub mod class;
pub mod field;
pub mod gameobject;
pub mod il2cpp_view;
pub mod itype;
pub mod method;
pub mod object;
pub mod string;
pub mod unity_object;
