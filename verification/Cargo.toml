[package]
name = "xml_documents"
version = "0.1.0"
edition = "2021"
publish = false

[dependencies]
iri-string = "=0.7.14"
xee-interpreter = "=0.2.0"
xot = "=0.31.2"
