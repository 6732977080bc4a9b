# mvp

A small program in three tasks: a controller, a model that keeps persons in
an SQLite database whose schema it migrates up and down, and a text user
interface. `src/` is the verified library that makes every decision of the
program: how each task's poll goes on, how the controller routes requests,
which migration a request asks for, how the screen shows a schema version,
how a person is written as a row, and how each error is reported. `app/` is
the program around it: the Tokio runtime, the channels, the database calls
and the Cursive screen.
