//! Verified core of a vocabulary-tutor web service: the prompts and request
//! shapes sent to the language model, the interpretation of its answers, the
//! multi-step word-card flow, and the HTTP gateway decisions around them.

pub mod domain;
pub mod transport;
pub mod openai;
pub mod codec;
pub mod text;
pub mod gateway;
pub mod endpoints;
pub mod word_card;
pub mod grpc_services;
pub mod grpc;
pub mod routes;
pub mod http_handler;
