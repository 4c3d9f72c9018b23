# rdp_wry

A webview-based RDP client. The browser front end, shown in a wry webview,
talks to the back end over a websocket; the back end runs a FreeRDP session
and streams the remote screen back.

- `src/` is the verified library (Verus): the front end's messages, the
  conversion of pointer and keyboard events into RDP input, the pixel format
  of the framebuffer, the state machine of the RDP session loop, the state
  machine of a websocket connection, and the decisions of the main window.
- `app/` is the program around it: the websocket server (tokio,
  tokio-tungstenite), the FreeRDP callbacks and the driver of the session
  loop, and the wry window. It performs the actions that the library decides.
- `extras/freerdp_shim.c` holds the accessors through which `app/` reads and
  writes FreeRDP's structures. It is compiled against the FreeRDP 2 headers
  and linked, with freerdp2, freerdp-client2 and winpr2, outside of cargo:
  this tree has no build script.
- `tests/` exercises the library on concrete values.

The front end itself (`app/html/main.html` and the script built into
`typescript/out/app.js`) is not part of this tree.
